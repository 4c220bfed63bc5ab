use healthcheck_watcher::config::{parse_seconds, Config, ConfigError};

fn s(v: &str) -> Option<String> {
    Some(v.to_string())
}

#[test]
fn defaults_fill_unset_settings() {
    let c = Config::from_values(None, None, s("redis://localhost"), s("http://log"), None, None)
        .unwrap();
    assert_eq!(c.watcher_host, "0.0.0.0");
    assert_eq!(c.watcher_port, "8080");
    assert_eq!(c.redis_url, "redis://localhost");
    assert_eq!(c.logging_api_url, "http://log");
    assert_eq!(c.stale_threshold_seconds, 30);
    assert_eq!(c.check_interval_seconds, 10);
}

#[test]
fn given_settings_are_kept() {
    let c = Config::from_values(
        s("127.0.0.1"),
        s("9000"),
        s("redis://r"),
        s("http://l"),
        s("45"),
        s("+5"),
    )
    .unwrap();
    assert_eq!(c.watcher_host, "127.0.0.1");
    assert_eq!(c.watcher_port, "9000");
    assert_eq!(c.stale_threshold_seconds, 45);
    assert_eq!(c.check_interval_seconds, 5);
}

#[test]
fn missing_store_url_is_an_error() {
    let r = Config::from_values(None, None, None, None, s("x"), None);
    assert_eq!(r.err(), Some(ConfigError::MissingRedisUrl));
}

#[test]
fn missing_logging_url_is_an_error() {
    let r = Config::from_values(None, None, s("redis://r"), None, None, None);
    assert_eq!(r.err(), Some(ConfigError::MissingLoggingApiUrl));
}

#[test]
fn unreadable_threshold_is_an_error() {
    let r = Config::from_values(None, None, s("redis://r"), s("http://l"), s("thirty"), s("x"));
    assert_eq!(r.err(), Some(ConfigError::InvalidStaleThreshold));
}

#[test]
fn unreadable_interval_is_an_error() {
    let r = Config::from_values(None, None, s("redis://r"), s("http://l"), None, s("-1"));
    assert_eq!(r.err(), Some(ConfigError::InvalidCheckInterval));
}

#[test]
fn seconds_are_read_in_base_ten() {
    assert_eq!(parse_seconds(s("17"), 3), Some(17));
    assert_eq!(parse_seconds(s("+0"), 3), Some(0));
    assert_eq!(parse_seconds(None, 3), Some(3));
    assert_eq!(parse_seconds(s("18446744073709551615"), 3), Some(u64::MAX));
}

#[test]
fn malformed_seconds_are_refused() {
    assert_eq!(parse_seconds(s("18446744073709551616"), 3), None);
    assert_eq!(parse_seconds(s(""), 3), None);
    assert_eq!(parse_seconds(s("+"), 3), None);
    assert_eq!(parse_seconds(s(" 5"), 3), None);
    assert_eq!(parse_seconds(s("1.5"), 3), None);
}

#[test]
fn errors_name_their_setting() {
    assert_eq!(ConfigError::MissingRedisUrl.setting_name(), "REDIS_URL");
    assert_eq!(ConfigError::MissingLoggingApiUrl.setting_name(), "LOGGING_API_URL");
    assert_eq!(ConfigError::InvalidStaleThreshold.setting_name(), "STALE_THRESHOLD_SECONDS");
    assert_eq!(ConfigError::InvalidCheckInterval.setting_name(), "CHECK_INTERVAL_SECONDS");
}
