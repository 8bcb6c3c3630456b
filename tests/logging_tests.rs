use kd::config::{default_enable, default_log_level, log_filter, Logging};

#[test]
fn test_log_level_parsing() {
    let levels = vec!["DEBUG", "INFO", "WARN", "ERROR"];
    let expected = vec!["debug", "info", "warn", "error"];
    for (level, want) in levels.into_iter().zip(expected) {
        let parsed = log_filter(level);
        assert_eq!(parsed, want);
        assert!(!parsed.is_empty());
        assert_eq!(parsed.to_lowercase(), parsed);
    }
    assert_eq!(log_filter("verbose"), "warn");
}

#[test]
fn test_logging_config() {
    let logging = Logging { enable: true, path: Some("/tmp/test.log".to_string()), level: "DEBUG".to_string() };
    assert!(logging.enable);
    assert_eq!(logging.level, "DEBUG");
    assert!(logging.path.is_some());
    assert_eq!(log_filter(&logging.level), "debug");
}

#[test]
fn test_log_file_path() {
    let log_path = std::path::Path::new("/tmp/test_kd.log");
    assert!(log_path.to_string_lossy().contains("test_kd"));
}

#[test]
fn test_log_level_default() {
    let default_level = default_log_level();
    assert_eq!(default_level, "WARN");
    assert!(default_enable());
}
