use applog::paths::{log_file_name, log_path_for};

#[test]
fn test_log_file_name_is_fixed() {
    assert_eq!(log_file_name(), "app.log");
}

#[test]
fn test_log_path_joins_directory_and_name() {
    assert_eq!(log_path_for("/tmp/app-config"), "/tmp/app-config/app.log");
    assert_eq!(log_path_for(""), "/app.log");
}
