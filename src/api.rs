use vstd::prelude::*;

use crate::config::{
    bearer_header, configured, cookie_header, default_user_agent, default_user_agent_seq,
    is_configured, normalize_bearer_token, normalize_cookie_header_value, AppConfig,
};
use crate::text::{trim, trim_seq};
use crate::RATIO_SCALE;

verus! {

/// One quota plan. Quotas are counted in hundredths of a unit.
#[derive(Clone, Debug)]
pub struct Subscription {
    pub name: String,
    pub total_quota: i64,
    pub remaining_quota: i64,
}

/// The body of a successful subscription query.
#[derive(Clone, Debug)]
pub struct SubscriptionsResponse {
    pub subscriptions: Vec<Subscription>,
}

/// Why the subscriptions could not be fetched.
#[derive(Clone, Debug)]
pub enum FetchError {
    /// The token or the cookie is missing; nothing was sent.
    MissingConfig,
    /// The request failed; the transport's message.
    Request(String),
}

/// What to send for a subscription query.
#[derive(Clone, Debug)]
pub struct FetchRequest {
    pub url: String,
    pub referer: String,
    pub user_agent: String,
    pub authorization: String,
    pub cookie: String,
}

/// The fill ratio of a plan, scaled by `RATIO_SCALE`: remaining over total, held to `[0, 1]`.
pub open spec fn ratio_spec(total: int, remaining: int) -> int {
    if total <= 0 || remaining <= 0 {
        0
    } else if remaining >= total {
        RATIO_SCALE as int
    } else {
        remaining * RATIO_SCALE / total
    }
}

/// The plan that the user prefers by name, with quota left.
pub open spec fn is_preferred(s: Subscription, name: Seq<char>) -> bool {
    trim_seq(s.name@) == trim_seq(name) && s.remaining_quota > 0
}

/// A plan that has a quota at all.
pub open spec fn is_candidate(s: Subscription) -> bool {
    s.total_quota > 0
}

/// `r` is the plan to show when nothing else decides: the first preferred one; else the
/// first of the candidates with the most quota left; else none.
pub open spec fn is_default_choice(subs: Seq<Subscription>, name: Seq<char>, r: Option<usize>) -> bool {
    if exists|i: int| 0 <= i < subs.len() && is_preferred(#[trigger] subs[i], name) {
        match r {
            Some(k) => {
                &&& k < subs.len()
                &&& is_preferred(subs[k as int], name)
                &&& forall|j: int| 0 <= j < k ==> !is_preferred(#[trigger] subs[j], name)
            },
            None => false,
        }
    } else if exists|i: int| 0 <= i < subs.len() && is_candidate(#[trigger] subs[i]) {
        match r {
            Some(k) => {
                &&& k < subs.len()
                &&& is_candidate(subs[k as int])
                &&& forall|j: int|
                    0 <= j < subs.len() && is_candidate(#[trigger] subs[j])
                        ==> subs[j].remaining_quota <= subs[k as int].remaining_quota
                &&& forall|j: int|
                    0 <= j < k && is_candidate(#[trigger] subs[j])
                        ==> subs[j].remaining_quota < subs[k as int].remaining_quota
            },
            None => false,
        }
    } else {
        r is None
    }
}

/// `s` without the slashes at its end.
pub open spec fn strip_trailing_slashes(s: Seq<char>) -> Seq<char>
    decreases s.len(),
{
    if s.len() > 0 && s.last() == '/' {
        strip_trailing_slashes(s.drop_last())
    } else {
        s
    }
}

/// The user agent to send: the configured one, trimmed, or a browser's when blank.
pub open spec fn user_agent_spec(ua: Seq<char>) -> Seq<char> {
    if trim_seq(ua).len() == 0 {
        default_user_agent_seq()
    } else {
        trim_seq(ua)
    }
}

/// The request that a configured `config` asks for.
pub open spec fn request_matches(config: AppConfig, q: FetchRequest) -> bool {
    let base = strip_trailing_slashes(config.api_base@);
    &&& q.url@ == base + "/subscriptions/list"@
    &&& q.referer@ == base + "/dashboard"@
    &&& q.user_agent@ == user_agent_spec(config.user_agent@)
    &&& q.authorization@ == bearer_header(config.bearer_token@)
    &&& q.cookie@ == cookie_header(config.cookie@)
}

impl FetchError {
    /// The message shown to the user.
    pub fn message(&self) -> (r: String)
        ensures
            self is MissingConfig ==> r@
                == "missing config: bearer token or cf_clearance cookie"@,
            self matches FetchError::Request(e) ==> r@ == "request error: "@ + e@,
    {
        match self {
            FetchError::MissingConfig => String::from_str(
                "missing config: bearer token or cf_clearance cookie",
            ),
            FetchError::Request(e) => String::from_str("request error: ").concat(e.as_str()),
        }
    }
}

/// How full the gauge is for `subscription`, scaled by `RATIO_SCALE`.
pub fn remaining_ratio(subscription: &Subscription) -> (r: u32)
    ensures
        r as int == ratio_spec(subscription.total_quota as int, subscription.remaining_quota as int),
        r <= RATIO_SCALE,
{
    let total = subscription.total_quota;
    let remaining = subscription.remaining_quota;
    if total <= 0 || remaining <= 0 {
        return 0;
    }
    if remaining >= total {
        return RATIO_SCALE;
    }
    let scaled = (remaining as u128) * (RATIO_SCALE as u128);
    proof {
        let (rem, tot, sc) = (remaining as int, total as int, RATIO_SCALE as int);
        assert(rem * sc / tot < sc) by (nonlinear_arith)
            requires
                0 < rem < tot,
                sc > 0,
        ;
    }
    (scaled / (total as u128)) as u32
}

/// The plan to show when no earlier choice applies (see `is_default_choice`).
pub fn default_subscription_index(subscriptions: &[Subscription], preferred_name: &str) -> (r:
    Option<usize>)
    ensures
        is_default_choice(subscriptions@, preferred_name@, r),
{
    let want = String::from_str(trim(preferred_name));
    let n = subscriptions.len();
    let mut i: usize = 0;
    while i < n
        invariant
            i <= n,
            n == subscriptions@.len(),
            want@ == trim_seq(preferred_name@),
            forall|j: int| 0 <= j < i ==> !is_preferred(#[trigger] subscriptions@[j], preferred_name@),
        decreases n - i,
    {
        let name = String::from_str(trim(subscriptions[i].name.as_str()));
        if name == want && subscriptions[i].remaining_quota > 0 {
            assert(is_preferred(subscriptions@[i as int], preferred_name@));
            return Some(i);
        }
        i = i + 1;
    }
    let mut best: Option<usize> = None;
    let mut k: usize = 0;
    while k < n
        invariant
            k <= n,
            n == subscriptions@.len(),
            forall|j: int| 0 <= j < n ==> !is_preferred(#[trigger] subscriptions@[j], preferred_name@),
            match best {
                Some(b) => {
                    &&& b < k
                    &&& is_candidate(subscriptions@[b as int])
                    &&& forall|j: int|
                        0 <= j < k && is_candidate(#[trigger] subscriptions@[j])
                            ==> subscriptions@[j].remaining_quota <= subscriptions@[b as int].remaining_quota
                    &&& forall|j: int|
                        0 <= j < b && is_candidate(#[trigger] subscriptions@[j])
                            ==> subscriptions@[j].remaining_quota < subscriptions@[b as int].remaining_quota
                },
                None => forall|j: int| 0 <= j < k ==> !is_candidate(#[trigger] subscriptions@[j]),
            },
        decreases n - k,
    {
        if subscriptions[k].total_quota > 0 {
            match best {
                None => {
                    best = Some(k);
                },
                Some(b) => {
                    if subscriptions[k].remaining_quota > subscriptions[b].remaining_quota {
                        best = Some(k);
                    }
                },
            }
        }
        k = k + 1;
    }
    best
}

/// `s` without the slashes at its end.
fn strip_trailing_slashes_str(s: &str) -> (r: &str)
    ensures
        r@ == strip_trailing_slashes(s@),
{
    let n = s.unicode_len();
    let mut j: usize = n;
    assert(s@.subrange(0, n as int) =~= s@);
    while j > 0
        invariant
            j <= n,
            n == s@.len(),
            strip_trailing_slashes(s@) == strip_trailing_slashes(s@.subrange(0, j as int)),
        ensures
            j > 0 ==> s@[j - 1] != '/',
        decreases j,
    {
        if s.get_char(j - 1) != '/' {
            break;
        }
        assert(s@.subrange(0, j as int).drop_last() =~= s@.subrange(0, j - 1));
        j = j - 1;
    }
    let ghost t = s@.subrange(0, j as int);
    assert(j > 0 ==> t.last() == s@[j - 1]);
    s.substring_char(0, j)
}

/// The request for `config`, or `MissingConfig` when a credential is blank.
pub fn prepare_fetch(config: &AppConfig) -> (r: Result<FetchRequest, FetchError>)
    ensures
        r is Err <==> !configured(*config),
        r matches Err(e) ==> e is MissingConfig,
        r matches Ok(q) ==> request_matches(*config, q),
{
    if !is_configured(config) {
        return Err(FetchError::MissingConfig);
    }
    let ua = trim(config.user_agent.as_str());
    let user_agent = if ua.unicode_len() == 0 {
        default_user_agent()
    } else {
        String::from_str(ua)
    };
    let base = strip_trailing_slashes_str(config.api_base.as_str());
    let url = String::from_str(base).concat("/subscriptions/list");
    let referer = String::from_str(base).concat("/dashboard");
    Ok(
        FetchRequest {
            url,
            referer,
            user_agent,
            authorization: normalize_bearer_token(config.bearer_token.as_str()),
            cookie: normalize_cookie_header_value(config.cookie.as_str()),
        },
    )
}

} // verus!
