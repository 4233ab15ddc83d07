use floatingball::config::{
    is_configured, normalize_bearer_token, normalize_cookie_header_value,
    try_parse_refresh_seconds, AppConfig, ConfigStore, DEFAULT_REFRESH_SECONDS,
};
use floatingball::text::{contains_str, hundredths_text, parse_u64, trim};

fn config_with(token: &str, cookie: &str) -> AppConfig {
    let mut config = AppConfig::default();
    config.bearer_token = token.to_string();
    config.cookie = cookie.to_string();
    config
}

#[test]
fn trim_removes_unicode_whitespace_at_both_ends() {
    assert_eq!(trim("  abc \t\n"), "abc");
    assert_eq!(trim("\u{3000}名\u{00A0}"), "名");
    assert_eq!(trim("a b"), "a b");
    assert_eq!(trim("   "), "");
    assert_eq!(trim(""), "");
}

#[test]
fn contains_finds_inner_text() {
    assert!(contains_str("a=1; cf_clearance=x", "cf_clearance="));
    assert!(!contains_str("cf_clearance", "cf_clearance="));
    assert!(contains_str("abc", ""));
}

#[test]
fn bearer_prefix_is_added_once() {
    assert_eq!(normalize_bearer_token("  abc  "), "Bearer abc");
    assert_eq!(normalize_bearer_token("bearer xyz"), "bearer xyz");
    assert_eq!(normalize_bearer_token("BeArEr xyz"), "BeArEr xyz");
    assert_eq!(normalize_bearer_token("Bearerxyz"), "Bearer Bearerxyz");
    assert_eq!(normalize_bearer_token("   "), "");
}

#[test]
fn bare_cookie_becomes_clearance_cookie() {
    assert_eq!(normalize_cookie_header_value(" abc "), "cf_clearance=abc");
    assert_eq!(
        normalize_cookie_header_value("x=1; cf_clearance=abc"),
        "x=1; cf_clearance=abc"
    );
    assert_eq!(normalize_cookie_header_value(""), "");
}

#[test]
fn configured_needs_token_and_cookie() {
    assert!(is_configured(&config_with("t", "c")));
    assert!(!is_configured(&config_with(" ", "c")));
    assert!(!is_configured(&config_with("t", "")));
    assert!(!is_configured(&AppConfig::default()));
}

#[test]
fn refresh_seconds_parse_like_u64() {
    assert_eq!(try_parse_refresh_seconds(" 30 "), Some(30));
    assert_eq!(try_parse_refresh_seconds("+7"), Some(7));
    assert_eq!(try_parse_refresh_seconds("-1"), None);
    assert_eq!(try_parse_refresh_seconds("-0"), None);
    assert_eq!(try_parse_refresh_seconds("+"), None);
    assert_eq!(try_parse_refresh_seconds("1 0"), None);
    assert_eq!(try_parse_refresh_seconds(""), None);
    assert_eq!(try_parse_refresh_seconds("   "), None);
    assert_eq!(
        try_parse_refresh_seconds("18446744073709551615"),
        Some(u64::MAX)
    );
    assert_eq!(try_parse_refresh_seconds("18446744073709551616"), None);
    assert_eq!(parse_u64("0042"), Some(42));
}

#[test]
fn hundredths_are_written_with_two_decimals() {
    assert_eq!(hundredths_text(1234), "12.34");
    assert_eq!(hundredths_text(-5), "-0.05");
    assert_eq!(hundredths_text(0), "0.00");
    assert_eq!(hundredths_text(100), "1.00");
    assert_eq!(hundredths_text(i64::MIN), "-92233720368547758.08");
}

#[test]
fn default_config_values() {
    let config = AppConfig::default();
    assert_eq!(config.api_base, "https://right.codes");
    assert_eq!(config.refresh_seconds, DEFAULT_REFRESH_SECONDS);
    assert_eq!(config.refresh_seconds, 60);
    assert_eq!(config.preferred_subscription_name, "小股东套餐");
    assert!(config.user_agent.starts_with("Mozilla/5.0"));
    assert_eq!(config.bearer_token, "");
}

#[test]
fn display_path_shows_the_path() {
    let store = ConfigStore { path: "/home/u/.config/config.toml".to_string() };
    assert_eq!(store.display_path(), "/home/u/.config/config.toml");
}
