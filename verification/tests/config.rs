use applog::config::{DisplayColor, LogConfig, Severity};

#[test]
fn test_standard_config_values() {
    let c = LogConfig::standard();
    assert_eq!(c.time_format, "%Y-%m-%dT%H:%M:%S%z");
    assert_eq!(c.min_level, Severity::Debug);
    assert_eq!(c.color_for(Severity::Trace), None);
    assert_eq!(c.color_for(Severity::Debug), Some(DisplayColor::Cyan));
    assert_eq!(c.color_for(Severity::Info), Some(DisplayColor::Yellow));
    assert_eq!(c.color_for(Severity::Warn), Some(DisplayColor::Magenta));
    assert_eq!(c.color_for(Severity::Error), Some(DisplayColor::Red));
}

#[test]
fn test_standard_records_debug_and_above() {
    let c = LogConfig::standard();
    assert!(!c.records(Severity::Trace));
    assert!(c.records(Severity::Debug));
    assert!(c.records(Severity::Info));
    assert!(c.records(Severity::Warn));
    assert!(c.records(Severity::Error));
}

#[test]
fn test_severity_ranks_are_ordered() {
    let levels = [
        Severity::Trace,
        Severity::Debug,
        Severity::Info,
        Severity::Warn,
        Severity::Error,
    ];
    for (i, l) in levels.iter().enumerate() {
        assert_eq!(applog::config::severity_rank(*l) as usize, i);
    }
}
