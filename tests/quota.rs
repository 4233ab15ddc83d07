use floatingball::api::{
    default_subscription_index, prepare_fetch, remaining_ratio, FetchError, Subscription,
};
use floatingball::config::AppConfig;
use floatingball::RATIO_SCALE;

fn sub(name: &str, total: i64, remaining: i64) -> Subscription {
    Subscription { name: name.to_string(), total_quota: total, remaining_quota: remaining }
}

#[test]
fn ratio_without_total_is_zero() {
    assert_eq!(remaining_ratio(&sub("a", 0, 500)), 0);
    assert_eq!(remaining_ratio(&sub("a", -100, 500)), 0);
}

#[test]
fn ratio_above_total_clamps_to_full() {
    assert_eq!(remaining_ratio(&sub("a", 10_000, 15_000)), RATIO_SCALE);
}

#[test]
fn negative_remaining_clamps_to_empty() {
    assert_eq!(remaining_ratio(&sub("a", 10_000, -300)), 0);
}

#[test]
fn ratio_is_remaining_over_total() {
    assert_eq!(remaining_ratio(&sub("a", 10_000, 5_000)), 5_000);
    assert_eq!(remaining_ratio(&sub("a", 3, 1)), 3_333);
    assert_eq!(remaining_ratio(&sub("a", i64::MAX, i64::MAX - 1)), 9_999);
}

#[test]
fn preferred_plan_with_quota_is_chosen() {
    let subs = vec![sub("X", 1000, 500), sub("Y", 0, 0), sub("Z", 2000, 2000)];
    assert_eq!(default_subscription_index(&subs, "Z"), Some(2));
    assert_eq!(default_subscription_index(&subs, "  Z "), Some(2));
    assert_eq!(default_subscription_index(&subs, "X"), Some(0));
}

#[test]
fn preferred_plan_without_quota_falls_back_to_most_remaining() {
    let subs = vec![sub("X", 1000, 500), sub("Y", 0, 0), sub("Z", 2000, 2000)];
    assert_eq!(default_subscription_index(&subs, "Y"), Some(2));
    assert_eq!(default_subscription_index(&subs, "none"), Some(2));
}

#[test]
fn fallback_ties_go_to_the_first() {
    let subs = vec![sub("A", 100, 50), sub("B", 100, 70), sub("C", 100, 70)];
    assert_eq!(default_subscription_index(&subs, ""), Some(1));
}

#[test]
fn fallback_skips_plans_without_total() {
    let subs = vec![sub("A", 0, 900), sub("B", 100, 10)];
    assert_eq!(default_subscription_index(&subs, ""), Some(1));
    let none = vec![sub("A", 0, 900)];
    assert_eq!(default_subscription_index(&none, ""), None);
    assert_eq!(default_subscription_index(&[], "A"), None);
}

#[test]
fn fetch_without_credentials_is_refused() {
    let config = AppConfig::default();
    assert!(matches!(prepare_fetch(&config), Err(FetchError::MissingConfig)));
    assert_eq!(
        FetchError::MissingConfig.message(),
        "missing config: bearer token or cf_clearance cookie"
    );
    assert_eq!(
        FetchError::Request("timeout".to_string()).message(),
        "request error: timeout"
    );
}

#[test]
fn fetch_request_is_built_from_config() {
    let mut config = AppConfig::default();
    config.api_base = "https://example.test//".to_string();
    config.bearer_token = "tok".to_string();
    config.cookie = "clear".to_string();
    config.user_agent = "  ".to_string();
    let q = match prepare_fetch(&config) {
        Ok(q) => q,
        Err(_) => panic!("configured"),
    };
    assert_eq!(q.url, "https://example.test/subscriptions/list");
    assert_eq!(q.referer, "https://example.test/dashboard");
    assert_eq!(q.authorization, "Bearer tok");
    assert_eq!(q.cookie, "cf_clearance=clear");
    assert!(q.user_agent.starts_with("Mozilla/5.0"));
    config.user_agent = " agent/1 ".to_string();
    let q = prepare_fetch(&config).ok().unwrap();
    assert_eq!(q.user_agent, "agent/1");
}
