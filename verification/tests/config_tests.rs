use dideban::config::{AppConfig, ConfigError, FileSource, Profile, ValidationIssue};

fn full_file(log_level: &str, interval: &str, domains: &str) -> String {
    let mut text = String::new();
    text.push_str(&format!("domains = {}\n", domains));
    text.push_str(&format!("interval = {}\n", interval));
    text.push_str("server_host = \"0.0.0.0\"\n");
    text.push_str("server_port = 8000\n");
    text.push_str("enable_bale = true\n");
    text.push_str("bale_token = \"tok\"\n");
    text.push_str("bale_chat_id = \"chat\"\n");
    text.push_str("web_username = \"user\"\n");
    text.push_str("web_password = \"pass\"\n");
    text.push_str("db_path = \"data.db\"\n");
    text.push_str(&format!("log_level = \"{}\"\n", log_level));
    text
}

#[test]
fn absent_file_yields_defaults() {
    let config = AppConfig::resolve(FileSource::Absent).unwrap();
    assert!(config.domains.is_empty());
    assert_eq!(config.interval, 60);
    assert_eq!(config.server_host, "127.0.0.1");
    assert_eq!(config.server_port, 7000);
    assert!(!config.enable_bale);
    assert_eq!(config.bale_token, "");
    assert_eq!(config.bale_chat_id, "");
    assert_eq!(config.web_username, "admin");
    assert_eq!(config.web_password, "admin");
    assert_eq!(config.db_path, "dideban.db");
    assert_eq!(config.log_level, "info");
}

#[test]
fn default_value_matches_resolve_of_absent() {
    let d = AppConfig::default();
    assert_eq!(d.interval, 60);
    assert_eq!(d.log_level, "info");
    assert_eq!(d.server_port, 7000);
    assert!(d.domains.is_empty());
}

#[test]
fn valid_file_round_trips_field_for_field() {
    let text = full_file("debug", "30", "[\"https://example.com\", \"https://example.org\"]");
    let config = AppConfig::resolve(FileSource::Content(text)).unwrap();
    assert_eq!(
        config.domains,
        vec!["https://example.com".to_string(), "https://example.org".to_string()]
    );
    assert_eq!(config.interval, 30);
    assert_eq!(config.server_host, "0.0.0.0");
    assert_eq!(config.server_port, 8000);
    assert!(config.enable_bale);
    assert_eq!(config.bale_token, "tok");
    assert_eq!(config.bale_chat_id, "chat");
    assert_eq!(config.web_username, "user");
    assert_eq!(config.web_password, "pass");
    assert_eq!(config.db_path, "data.db");
    assert_eq!(config.log_level, "debug");
}

#[test]
fn unknown_keys_are_ignored() {
    let mut text = full_file("trace", "5", "[\"https://example.com\"]");
    text.push_str("surplus = \"ignored\"\n");
    let config = AppConfig::resolve(FileSource::Content(text)).unwrap();
    assert_eq!(config.log_level, "trace");
    assert_eq!(config.interval, 5);
}

#[test]
fn invalid_log_level_is_rejected_with_its_message() {
    let text = full_file("silly", "30", "[\"https://example.com\"]");
    let err = AppConfig::resolve(FileSource::Content(text)).unwrap_err();
    assert!(matches!(
        err,
        ConfigError::Validation(ValidationIssue::InvalidLogLevel(_))
    ));
    let msg = err.message();
    assert!(msg.contains("Invalid log_level"));
    assert_eq!(
        msg,
        "Invalid log_level: silly. Must be one of: error, warn, info, debug, trace"
    );
}

#[test]
fn zero_interval_is_rejected_with_its_message() {
    let text = full_file("info", "0", "[\"https://example.com\"]");
    let err = AppConfig::resolve(FileSource::Content(text)).unwrap_err();
    assert!(matches!(
        err,
        ConfigError::Validation(ValidationIssue::ZeroInterval)
    ));
    assert_eq!(err.message(), "interval cannot be zero");
}

#[test]
fn empty_domains_is_rejected_with_its_message() {
    let text = full_file("info", "30", "[]");
    let err = AppConfig::resolve(FileSource::Content(text)).unwrap_err();
    assert!(matches!(
        err,
        ConfigError::Validation(ValidationIssue::EmptyDomains)
    ));
    assert_eq!(err.message(), "domains cannot be empty");
}

#[test]
fn log_level_rule_is_checked_before_interval_and_domains() {
    let text = full_file("silly", "0", "[]");
    let err = AppConfig::resolve(FileSource::Content(text)).unwrap_err();
    assert!(matches!(
        err,
        ConfigError::Validation(ValidationIssue::InvalidLogLevel(_))
    ));
}

#[test]
fn malformed_text_is_a_parse_error() {
    let text = String::from("this is not { valid toml");
    let err = AppConfig::resolve(FileSource::Content(text)).unwrap_err();
    assert!(matches!(err, ConfigError::Parse(_)));
    assert!(err.message().starts_with("Failed to parse config file: "));
}

#[test]
fn missing_field_fails_to_parse() {
    // A partially-specified file does not fall back to defaults per
    // field: it is rejected whole.
    let text = String::from("log_level = \"info\"\n");
    let err = AppConfig::resolve(FileSource::Content(text)).unwrap_err();
    match err {
        ConfigError::Parse(detail) => assert_eq!(detail, "missing field `domains`"),
        _ => panic!("expected a parse error"),
    }
}

#[test]
fn wrongly_typed_field_fails_to_parse() {
    let text = full_file("info", "\"soon\"", "[\"https://example.com\"]");
    let err = AppConfig::resolve(FileSource::Content(text)).unwrap_err();
    match err {
        ConfigError::Parse(detail) => assert_eq!(detail, "invalid value for field `interval`"),
        _ => panic!("expected a parse error"),
    }
}

#[test]
fn negative_interval_fails_to_parse() {
    let text = full_file("info", "-4", "[\"https://example.com\"]");
    let err = AppConfig::resolve(FileSource::Content(text)).unwrap_err();
    match err {
        ConfigError::Parse(detail) => assert_eq!(detail, "invalid value for field `interval`"),
        _ => panic!("expected a parse error"),
    }
}

#[test]
fn out_of_range_port_fails_to_parse() {
    let mut text = String::new();
    text.push_str("domains = [\"https://example.com\"]\n");
    text.push_str("interval = 30\n");
    text.push_str("server_host = \"0.0.0.0\"\n");
    text.push_str("server_port = 70000\n");
    text.push_str("enable_bale = false\n");
    text.push_str("bale_token = \"\"\n");
    text.push_str("bale_chat_id = \"\"\n");
    text.push_str("web_username = \"admin\"\n");
    text.push_str("web_password = \"admin\"\n");
    text.push_str("db_path = \"dideban.db\"\n");
    text.push_str("log_level = \"info\"\n");
    let err = AppConfig::resolve(FileSource::Content(text)).unwrap_err();
    match err {
        ConfigError::Parse(detail) => assert_eq!(detail, "invalid value for field `server_port`"),
        _ => panic!("expected a parse error"),
    }
}

#[test]
fn unreadable_file_is_an_io_error_naming_path_and_cause() {
    let err = AppConfig::resolve(FileSource::Unreadable(
        String::from("config.toml"),
        String::from("permission denied"),
    ))
    .unwrap_err();
    match &err {
        ConfigError::Io(path, cause) => {
            assert_eq!(path, "config.toml");
            assert_eq!(cause, "permission denied");
        }
        _ => panic!("expected an io error"),
    }
    assert_eq!(
        err.message(),
        "Failed to read config file config.toml: permission denied"
    );
}

#[test]
fn development_profile_uses_working_directory_path() {
    let path = dideban::config::locate_config(Profile::Development).unwrap();
    assert_eq!(path, "config.toml");
}

#[test]
fn production_profile_joins_the_os_config_directory() {
    let path = dideban::config::config_path(Profile::Production, Some("/etc/dideban")).unwrap();
    assert_eq!(path, "/etc/dideban/config.toml");
}

#[test]
fn production_profile_locates_a_file_inside_the_os_directory() {
    // Whether the OS names a configuration directory depends on the
    // environment; either way the resolved path is `config.toml`
    // inside it.
    match dideban::config::locate_config(Profile::Production) {
        Ok(path) => {
            assert!(path.ends_with("/config.toml"));
            assert!(path.len() > "/config.toml".len());
        }
        Err(err) => assert!(matches!(err, ConfigError::ConfigDir)),
    }
}

#[test]
fn production_profile_without_a_directory_fails() {
    let err = dideban::config::config_path(Profile::Production, None).unwrap_err();
    assert!(matches!(err, ConfigError::ConfigDir));
    assert_eq!(err.message(), "Could not determine config directory");
}
