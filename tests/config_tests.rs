use kd::config::{default_pager_command, Config, Logging, ProxyKind, proxy_kind};

#[test]
fn test_config_defaults() {
    let config = Config::default();
    assert!(config.paging);
    assert_eq!(config.pager_command, "less -RF");
    assert!(!config.english_only);
    assert!(!config.clear_screen);
    assert!(config.enable_emoji);
    assert!(!config.freq_alert);
    assert_eq!(config.theme, "temp");
    assert!(config.http_proxy.is_none());
}

#[test]
fn test_logging_defaults() {
    let logging = Logging::default();
    assert!(logging.enable);
    assert_eq!(logging.level, "WARN");
    assert!(logging.path.is_none());
}

#[test]
fn test_config_toml_format() {
    let toml_content = r#"
paging = false
pager_command = "bat"
english_only = true
clear_screen = true
enable_emoji = false
freq_alert = true

[logging]
enable = true
path = "/tmp/test.log"
level = "DEBUG"
"#;

    assert!(toml_content.contains("paging = false"));
    assert!(toml_content.contains("pager_command = \"bat\""));
    assert!(toml_content.contains("clear_screen = true"));
    assert!(toml_content.contains("enable_emoji = false"));
    assert!(toml_content.contains("freq_alert = true"));
    assert!(toml_content.contains("[logging]"));
    assert!(toml_content.contains("level = \"DEBUG\""));
}

#[test]
fn windows_pager_default_is_more() {
    assert_eq!(default_pager_command(true), "more");
    assert_eq!(default_pager_command(false), "less -RF");
    assert_eq!(Config::defaults_for(true).pager_command, "more");
}

#[test]
fn proxy_kind_follows_the_scheme() {
    assert_eq!(proxy_kind(&None), ProxyKind::Direct);
    assert_eq!(proxy_kind(&Some(String::new())), ProxyKind::Direct);
    assert_eq!(proxy_kind(&Some("https://proxy.example:8443".to_string())), ProxyKind::Https);
    assert_eq!(proxy_kind(&Some("http://proxy.example:8080".to_string())), ProxyKind::Http);
    assert_eq!(proxy_kind(&Some("https:/".to_string())), ProxyKind::Http);
}
