//! The logging configuration model: severity levels, display colors, and the
//! fixed configuration the sink is installed with.

use vstd::prelude::*;

verus! {

/// A log severity level, from least to most severe.
#[derive(Clone, Copy, Debug, PartialEq, Eq, Structural)]
pub enum Severity {
    Trace,
    Debug,
    Info,
    Warn,
    Error,
}

/// A display color for a severity level, used only by sinks that render
/// color; a file sink ignores it, but the configuration carries it for
/// interface parity with terminal sinks.
#[derive(Clone, Copy, Debug, PartialEq, Eq, Structural)]
pub enum DisplayColor {
    Cyan,
    Yellow,
    Magenta,
    Red,
}

/// The rank of a severity level: a larger rank means more severe.
pub open spec fn severity(l: Severity) -> nat {
    match l {
        Severity::Trace => 0,
        Severity::Debug => 1,
        Severity::Info => 2,
        Severity::Warn => 3,
        Severity::Error => 4,
    }
}

/// The rank of a severity level, as an integer.
pub fn severity_rank(l: Severity) -> (n: u8)
    ensures
        n == severity(l),
{
    match l {
        Severity::Trace => 0,
        Severity::Debug => 1,
        Severity::Info => 2,
        Severity::Warn => 3,
        Severity::Error => 4,
    }
}

/// A logging configuration: the timestamp format, the minimum severity that
/// is recorded, and an explicit (possibly absent) display color for every
/// severity level.
#[derive(Clone, Copy, Debug)]
pub struct LogConfig {
    /// The strftime-style timestamp format placed at the start of each line.
    pub time_format: &'static str,
    /// The least severe level that is recorded; anything below is suppressed.
    pub min_level: Severity,
    /// The display color for `Trace`.
    pub trace_color: Option<DisplayColor>,
    /// The display color for `Debug`.
    pub debug_color: Option<DisplayColor>,
    /// The display color for `Info`.
    pub info_color: Option<DisplayColor>,
    /// The display color for `Warn`.
    pub warn_color: Option<DisplayColor>,
    /// The display color for `Error`.
    pub error_color: Option<DisplayColor>,
}

impl LogConfig {
    /// The color entry of this configuration for a given level.
    pub open spec fn color_spec(self, l: Severity) -> Option<DisplayColor> {
        match l {
            Severity::Trace => self.trace_color,
            Severity::Debug => self.debug_color,
            Severity::Info => self.info_color,
            Severity::Warn => self.warn_color,
            Severity::Error => self.error_color,
        }
    }

    /// Whether this configuration records events of a given level: exactly
    /// those at least as severe as the configured minimum.
    pub open spec fn records_spec(self, l: Severity) -> bool {
        severity(l) >= severity(self.min_level)
    }

    /// The fixed configuration this library installs: an ISO-8601-like
    /// timestamp with a numeric UTC offset, a minimum severity of `Debug`,
    /// and one explicit color entry per level.
    pub fn standard() -> (c: LogConfig)
        ensures
            c.time_format@ == "%Y-%m-%dT%H:%M:%S%z"@,
            c.min_level == Severity::Debug,
            c.trace_color == None::<DisplayColor>,
            c.debug_color == Some(DisplayColor::Cyan),
            c.info_color == Some(DisplayColor::Yellow),
            c.warn_color == Some(DisplayColor::Magenta),
            c.error_color == Some(DisplayColor::Red),
    {
        LogConfig {
            time_format: "%Y-%m-%dT%H:%M:%S%z",
            min_level: Severity::Debug,
            trace_color: None,
            debug_color: Some(DisplayColor::Cyan),
            info_color: Some(DisplayColor::Yellow),
            warn_color: Some(DisplayColor::Magenta),
            error_color: Some(DisplayColor::Red),
        }
    }

    /// The color entry for a given level.
    pub fn color_for(&self, l: Severity) -> (c: Option<DisplayColor>)
        ensures
            c == self.color_spec(l),
    {
        match l {
            Severity::Trace => self.trace_color,
            Severity::Debug => self.debug_color,
            Severity::Info => self.info_color,
            Severity::Warn => self.warn_color,
            Severity::Error => self.error_color,
        }
    }

    /// Whether events of a given level are recorded under this
    /// configuration.
    pub fn records(&self, l: Severity) -> (b: bool)
        ensures
            b == self.records_spec(l),
    {
        severity_rank(l) >= severity_rank(self.min_level)
    }
}

/// Under the standard configuration, `Trace` is suppressed and every other
/// level is recorded.
pub proof fn lemma_standard_records(c: LogConfig, l: Severity)
    requires
        c.min_level == Severity::Debug,
    ensures
        c.records_spec(l) <==> l != Severity::Trace,
{
}

} // verus!
