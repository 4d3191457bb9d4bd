//! The bridge from this library's configuration model to the simplelog
//! sink: trusted declarations of simplelog's opaque configuration types and
//! wrappers around its builder, plus the verified function that carries a
//! [`LogConfig`](crate::config::LogConfig) into a sink configuration.
//!
//! The sink's types are opaque to verification, so what they hold is
//! tracked under names: the timestamp format a builder or configuration
//! holds, the color entry it holds for each severity level, and the rank a
//! severity filter admits from. Each builder wrapper states, over those
//! names, exactly the field store its simplelog source performs, and the
//! public functions prove from that what the installed sink carries.
//! Installing the writer itself (which takes the opened file) is the
//! surrounding process's job.

use vstd::prelude::*;

use crate::config::{severity, DisplayColor, LogConfig, Severity};

verus! {

#[verifier::external_type_specification]
#[verifier::external_body]
pub struct ExConfig(simplelog::Config);

#[verifier::external_type_specification]
#[verifier::external_body]
pub struct ExConfigBuilder(simplelog::ConfigBuilder);

#[verifier::external_type_specification]
#[verifier::external_body]
pub struct ExLevel(simplelog::Level);

#[verifier::external_type_specification]
#[verifier::external_body]
pub struct ExLevelFilter(simplelog::LevelFilter);

#[verifier::external_type_specification]
#[verifier::external_body]
pub struct ExColor(simplelog::Color);

/// The timestamp format a builder holds.
pub uninterp spec fn builder_time_format(b: simplelog::ConfigBuilder) -> Seq<char>;

/// The color choice a builder holds in the slot of the sink level that
/// corresponds to the given severity.
pub uninterp spec fn builder_color(b: simplelog::ConfigBuilder, l: Severity) -> Option<
    DisplayColor,
>;

/// The timestamp format a built configuration holds.
pub uninterp spec fn config_time_format(c: simplelog::Config) -> Seq<char>;

/// The color choice a built configuration holds in the slot of the sink
/// level that corresponds to the given severity.
pub uninterp spec fn config_color(c: simplelog::Config, l: Severity) -> Option<DisplayColor>;

/// The severity rank from which a sink filter admits events: a filter of
/// rank `r` admits exactly the levels of rank `r` and above.
pub uninterp spec fn filter_rank(f: simplelog::LevelFilter) -> nat;

/// Relies on simplelog::ConfigBuilder::new: a fresh builder holding the
/// default configuration.
#[verifier::external_body]
fn builder_new() -> (b: simplelog::ConfigBuilder) {
    simplelog::ConfigBuilder::new()
}

/// Relies on simplelog::ConfigBuilder::set_time_format_str: stores the
/// given strftime pattern as the builder's timestamp format and changes
/// nothing else.
#[verifier::external_body]
fn builder_set_time_format(b: &mut simplelog::ConfigBuilder, format: &'static str)
    ensures
        builder_time_format(*final(b)) == format@,
        forall|l: Severity| builder_color(*final(b), l) == builder_color(*old(b), l),
{
    b.set_time_format_str(format);
}

/// Relies on simplelog::ConfigBuilder::set_level_color: stores the given
/// color choice in the given level's slot and changes nothing else — the
/// other levels' slots and the timestamp format stay as they were.
#[verifier::external_body]
fn builder_set_level_color(
    b: &mut simplelog::ConfigBuilder,
    l: Severity,
    color: Option<DisplayColor>,
)
    ensures
        builder_color(*final(b), l) == color,
        forall|k: Severity| k != l ==> builder_color(*final(b), k) == builder_color(*old(b), k),
        builder_time_format(*final(b)) == builder_time_format(*old(b)),
{
    let level = match l {
        Severity::Trace => simplelog::Level::Trace,
        Severity::Debug => simplelog::Level::Debug,
        Severity::Info => simplelog::Level::Info,
        Severity::Warn => simplelog::Level::Warn,
        Severity::Error => simplelog::Level::Error,
    };
    b.set_level_color(level, match color {
        None => None,
        Some(DisplayColor::Cyan) => Some(simplelog::Color::Cyan),
        Some(DisplayColor::Yellow) => Some(simplelog::Color::Yellow),
        Some(DisplayColor::Magenta) => Some(simplelog::Color::Magenta),
        Some(DisplayColor::Red) => Some(simplelog::Color::Red),
    });
}

/// Relies on simplelog::ConfigBuilder::build: returns the configuration the
/// builder holds, with its timestamp format and its level colors.
#[verifier::external_body]
fn builder_build(b: &mut simplelog::ConfigBuilder) -> (c: simplelog::Config)
    ensures
        config_time_format(c) == builder_time_format(*old(b)),
        forall|l: Severity| config_color(c, l) == builder_color(*old(b), l),
{
    b.build()
}

/// Relies on simplelog::LevelFilter naming the same five levels: the filter
/// for a severity admits exactly that severity's rank and above.
#[verifier::external_body]
fn sink_level_filter(l: Severity) -> (f: simplelog::LevelFilter)
    ensures
        filter_rank(f) == severity(l),
{
    match l {
        Severity::Trace => simplelog::LevelFilter::Trace,
        Severity::Debug => simplelog::LevelFilter::Debug,
        Severity::Info => simplelog::LevelFilter::Info,
        Severity::Warn => simplelog::LevelFilter::Warn,
        Severity::Error => simplelog::LevelFilter::Error,
    }
}

/// Build the sink configuration a writer is installed with: it carries the
/// given configuration's timestamp format and, for every severity level,
/// exactly that configuration's color entry.
pub fn build_sink_config(cfg: &LogConfig) -> (c: simplelog::Config)
    ensures
        config_time_format(c) == cfg.time_format@,
        forall|l: Severity| config_color(c, l) == cfg.color_spec(l),
{
    let mut b = builder_new();
    builder_set_time_format(&mut b, cfg.time_format);
    builder_set_level_color(&mut b, Severity::Trace, cfg.trace_color);
    builder_set_level_color(&mut b, Severity::Debug, cfg.debug_color);
    builder_set_level_color(&mut b, Severity::Info, cfg.info_color);
    builder_set_level_color(&mut b, Severity::Warn, cfg.warn_color);
    builder_set_level_color(&mut b, Severity::Error, cfg.error_color);
    builder_build(&mut b)
}

/// The severity filter a writer is installed with: it admits exactly the
/// levels the given configuration records, from its minimum level up.
pub fn sink_min_level(cfg: &LogConfig) -> (f: simplelog::LevelFilter)
    ensures
        filter_rank(f) == severity(cfg.min_level),
{
    sink_level_filter(cfg.min_level)
}

} // verus!
