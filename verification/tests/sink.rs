use applog::config::LogConfig;
use applog::sink::{build_sink_config, sink_min_level};

#[test]
fn test_sink_filter_is_debug() {
    let cfg = LogConfig::standard();
    assert_eq!(sink_min_level(&cfg), simplelog::LevelFilter::Debug);
}

#[test]
fn test_sink_config_carries_format_and_colors() {
    // The built configuration is opaque to the library's contracts, but its
    // debug rendering shows the stored fields: the timestamp format and the
    // per-level colors must have been carried over, not dropped.
    let rendered = format!("{:?}", build_sink_config(&LogConfig::standard()));
    assert!(rendered.contains("%Y-%m-%dT%H:%M:%S%z"));
    for color in ["Cyan", "Yellow", "Magenta", "Red"] {
        assert!(rendered.contains(color), "missing color {}", color);
    }
}

#[test]
fn test_sink_installs_once() {
    let cfg = LogConfig::standard();
    // The first installation of the global sink succeeds.
    let first = simplelog::WriteLogger::init(
        sink_min_level(&cfg),
        build_sink_config(&cfg),
        Vec::<u8>::new(),
    );
    assert!(first.is_ok());
    // The process-wide sink is set-once: a second installation is refused.
    let second = simplelog::WriteLogger::init(
        sink_min_level(&cfg),
        build_sink_config(&cfg),
        Vec::<u8>::new(),
    );
    assert!(second.is_err());
}
