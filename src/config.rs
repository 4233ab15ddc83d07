use vstd::prelude::*;

use crate::text::{
    contains_seq, contains_str, is_blank, is_blank_str, is_u64_text, parse_u64,
    starts_with_ascii_ci, starts_with_ascii_ci_str, trim, trim_seq, u64_text_value,
};

verus! {

/// The user's settings: where to ask, how to authenticate, how often, what to show first.
#[derive(Clone, Debug)]
pub struct AppConfig {
    pub api_base: String,
    pub user_agent: String,
    pub bearer_token: String,
    pub cookie: String,
    pub refresh_seconds: u64,
    pub preferred_subscription_name: String,
}

/// Where the settings file lives, as text.
#[derive(Clone, Debug)]
pub struct ConfigStore {
    pub path: String,
}

pub open spec fn default_api_base_seq() -> Seq<char> {
    "https://right.codes"@
}

pub open spec fn default_user_agent_seq() -> Seq<char> {
    "Mozilla/5.0 (Windows NT 10.0; Win64; x64; rv:146.0) Gecko/20100101 Firefox/146.0"@
}

pub open spec fn default_preferred_name_seq() -> Seq<char> {
    "小股东套餐"@
}

/// The refresh interval used when none is configured.
pub const DEFAULT_REFRESH_SECONDS: u64 = 60;

/// The authorization header value for a token: `Bearer ` is added unless present.
pub open spec fn bearer_header(input: Seq<char>) -> Seq<char> {
    let t = trim_seq(input);
    if t.len() == 0 {
        t
    } else if starts_with_ascii_ci(t, "bearer "@) {
        t
    } else {
        "Bearer "@ + t
    }
}

/// The cookie header value: a bare value becomes the `cf_clearance` cookie.
pub open spec fn cookie_header(input: Seq<char>) -> Seq<char> {
    let c = trim_seq(input);
    if c.len() == 0 {
        c
    } else if contains_seq(c, "cf_clearance="@) {
        c
    } else {
        "cf_clearance="@ + c
    }
}

/// Both credentials are present.
pub open spec fn configured(config: AppConfig) -> bool {
    !is_blank(config.bearer_token@) && !is_blank(config.cookie@)
}

pub fn default_api_base() -> (r: String)
    ensures
        r@ == default_api_base_seq(),
{
    String::from_str("https://right.codes")
}

pub fn default_refresh_seconds() -> (r: u64)
    ensures
        r == DEFAULT_REFRESH_SECONDS,
{
    DEFAULT_REFRESH_SECONDS
}

pub fn default_user_agent() -> (r: String)
    ensures
        r@ == default_user_agent_seq(),
{
    String::from_str(
        "Mozilla/5.0 (Windows NT 10.0; Win64; x64; rv:146.0) Gecko/20100101 Firefox/146.0",
    )
}

pub fn default_preferred_subscription_name() -> (r: String)
    ensures
        r@ == default_preferred_name_seq(),
{
    String::from_str("小股东套餐")
}

impl Default for AppConfig {
    fn default() -> (r: AppConfig)
        ensures
            r.api_base@ == default_api_base_seq(),
            r.user_agent@ == default_user_agent_seq(),
            r.bearer_token@.len() == 0,
            r.cookie@.len() == 0,
            r.refresh_seconds == DEFAULT_REFRESH_SECONDS,
            r.preferred_subscription_name@ == default_preferred_name_seq(),
    {
        AppConfig {
            api_base: default_api_base(),
            user_agent: default_user_agent(),
            bearer_token: String::new(),
            cookie: String::new(),
            refresh_seconds: default_refresh_seconds(),
            preferred_subscription_name: default_preferred_subscription_name(),
        }
    }
}

impl ConfigStore {
    /// The settings file's location, for showing to the user.
    pub fn display_path(&self) -> (r: String)
        ensures
            r@ == self.path@,
    {
        self.path.clone()
    }
}

/// The `Authorization` header value for what the user typed as a token.
pub fn normalize_bearer_token(input: &str) -> (r: String)
    ensures
        r@ == bearer_header(input@),
{
    let token = trim(input);
    if token.unicode_len() == 0 {
        return String::new();
    }
    if starts_with_ascii_ci_str(token, "bearer ") {
        String::from_str(token)
    } else {
        String::from_str("Bearer ").concat(token)
    }
}

/// The `Cookie` header value for what the user typed as a cookie.
pub fn normalize_cookie_header_value(input: &str) -> (r: String)
    ensures
        r@ == cookie_header(input@),
{
    let cookie = trim(input);
    if cookie.unicode_len() == 0 {
        return String::new();
    }
    if contains_str(cookie, "cf_clearance=") {
        String::from_str(cookie)
    } else {
        String::from_str("cf_clearance=").concat(cookie)
    }
}

/// Whether both a token and a cookie are set.
pub fn is_configured(config: &AppConfig) -> (r: bool)
    ensures
        r == configured(*config),
{
    !is_blank_str(config.bearer_token.as_str()) && !is_blank_str(config.cookie.as_str())
}

/// The refresh interval that the user typed, if it is a whole number of seconds.
pub fn try_parse_refresh_seconds(input: &str) -> (r: Option<u64>)
    ensures
        r.is_some() == is_u64_text(trim_seq(input@)),
        r matches Some(v) ==> v as int == u64_text_value(trim_seq(input@)),
{
    let trimmed = trim(input);
    if trimmed.unicode_len() == 0 {
        return None;
    }
    parse_u64(trimmed)
}

} // verus!
