//! Credential-free snapshots of accounts, token health and the weekly
//! quota, for the command line and the native bridges.

use crate::account::{opt_view, Account};
use crate::quota::{self, NamedWindow, Quota, QuotaWindow};
use crate::text;
use crate::token_health::{self, AccessTokenState, ExpirySource, TokenHealth};
use vstd::prelude::*;

verus! {

/// A token's state as snapshots report it; `Stale` overrides the rest.
#[derive(Debug, Clone, Copy, PartialEq, Eq, Structural)]
pub enum AccessTokenSummaryState {
    Stale,
    Missing,
    Fresh,
    Expiring,
    Expired,
    Unknown,
}

pub open spec fn summary_state(s: AccessTokenState) -> AccessTokenSummaryState {
    match s {
        AccessTokenState::Missing => AccessTokenSummaryState::Missing,
        AccessTokenState::Fresh => AccessTokenSummaryState::Fresh,
        AccessTokenState::Expiring => AccessTokenSummaryState::Expiring,
        AccessTokenState::Expired => AccessTokenSummaryState::Expired,
        AccessTokenState::Unknown => AccessTokenSummaryState::Unknown,
    }
}

impl From<AccessTokenState> for AccessTokenSummaryState {
    fn from(value: AccessTokenState) -> (r: AccessTokenSummaryState) {
        match value {
            AccessTokenState::Missing => AccessTokenSummaryState::Missing,
            AccessTokenState::Fresh => AccessTokenSummaryState::Fresh,
            AccessTokenState::Expiring => AccessTokenSummaryState::Expiring,
            AccessTokenState::Expired => AccessTokenSummaryState::Expired,
            AccessTokenState::Unknown => AccessTokenSummaryState::Unknown,
        }
    }
}

impl vstd::std_specs::convert::FromSpecImpl<AccessTokenState> for AccessTokenSummaryState {
    open spec fn obeys_from_spec() -> bool {
        true
    }

    open spec fn from_spec(v: AccessTokenState) -> AccessTokenSummaryState {
        summary_state(v)
    }
}

/// Where a reported expiry came from.
#[derive(Debug, Clone, Copy, PartialEq, Eq, Structural)]
pub enum ExpirySourceSummary {
    Jwt,
    Ledger,
}

pub open spec fn summary_source(s: ExpirySource) -> ExpirySourceSummary {
    match s {
        ExpirySource::Jwt => ExpirySourceSummary::Jwt,
        ExpirySource::Ledger => ExpirySourceSummary::Ledger,
    }
}

impl From<ExpirySource> for ExpirySourceSummary {
    fn from(value: ExpirySource) -> (r: ExpirySourceSummary) {
        match value {
            ExpirySource::Jwt => ExpirySourceSummary::Jwt,
            ExpirySource::Ledger => ExpirySourceSummary::Ledger,
        }
    }
}

impl vstd::std_specs::convert::FromSpecImpl<ExpirySource> for ExpirySourceSummary {
    open spec fn obeys_from_spec() -> bool {
        true
    }

    open spec fn from_spec(v: ExpirySource) -> ExpirySourceSummary {
        summary_source(v)
    }
}

/// Token health without the tokens.
#[derive(Debug, Clone, Copy, PartialEq, Eq, Structural)]
pub struct TokenHealthSummary {
    pub status: AccessTokenSummaryState,
    pub expiry_source: Option<ExpirySourceSummary>,
    pub refresh_available: bool,
}

/// An account without its credentials.
#[derive(Debug, Clone, PartialEq, Eq)]
pub struct AccountSummary {
    pub id: String,
    pub email: String,
    pub current: bool,
    pub stale: bool,
    pub account_id: Option<String>,
    pub organization_id: Option<String>,
    pub expires_at: Option<i64>,
    pub token_health: TokenHealthSummary,
}

/// The summary of a health assessment.
pub open spec fn health_summary(h: TokenHealth) -> TokenHealthSummary {
    TokenHealthSummary {
        status: if h.stale {
            AccessTokenSummaryState::Stale
        } else {
            summary_state(h.access)
        },
        expiry_source: match h.expiry_source {
            Some(s) => Some(summary_source(s)),
            None => None,
        },
        refresh_available: h.has_refresh_token,
    }
}

/// The summary of an account at `now`.
pub open spec fn account_summary_of(a: Account, current: bool, now: u64) -> AccountSummary {
    let h = token_health::assess_spec(a.access_token@, a.refresh_token@, a.expires_at, a.stale, now);
    AccountSummary {
        id: a.id,
        email: a.email,
        current,
        stale: a.stale,
        account_id: a.account_id,
        organization_id: a.organization_id,
        expires_at: h.expires_at,
        token_health: health_summary(h),
    }
}

impl AccountSummary {
    /// The summary of an account at `now`: its identity, whether it is the
    /// current one, and its token health; no token is copied.
    pub fn from_account(account: &Account, current: bool, now: u64) -> (r: AccountSummary)
        ensures
            r.id@ == account.id@,
            r.email@ == account.email@,
            r.current == current,
            r.stale == account.stale,
            opt_view(r.account_id) == opt_view(account.account_id),
            opt_view(r.organization_id) == opt_view(account.organization_id),
            r.expires_at == token_health::assess_spec(
                account.access_token@,
                account.refresh_token@,
                account.expires_at,
                account.stale,
                now,
            ).expires_at,
            r.token_health == health_summary(
                token_health::assess_spec(
                    account.access_token@,
                    account.refresh_token@,
                    account.expires_at,
                    account.stale,
                    now,
                ),
            ),
            r == account_summary_of(*account, current, now),
    {
        let health = token_health::assess(
            account.access_token.as_str(),
            account.refresh_token.as_str(),
            account.expires_at,
            account.stale,
            now,
        );
        let status = if health.stale {
            AccessTokenSummaryState::Stale
        } else {
            AccessTokenSummaryState::from(health.access)
        };
        let expiry_source = match health.expiry_source {
            Some(s) => Some(ExpirySourceSummary::from(s)),
            None => None,
        };
        AccountSummary {
            id: account.id.clone(),
            email: account.email.clone(),
            current,
            stale: account.stale,
            account_id: crate::account::copy_opt(&account.account_id),
            organization_id: crate::account::copy_opt(&account.organization_id),
            expires_at: health.expires_at,
            token_health: TokenHealthSummary {
                status,
                expiry_source,
                refresh_available: health.has_refresh_token,
            },
        }
    }
}

/// The weekly quota and the reset credits of an account.
#[derive(Debug, Clone, PartialEq, Eq)]
pub struct QuotaSummary {
    pub plan: Option<String>,
    pub weekly_remaining: Option<i32>,
    pub weekly_reset_at: Option<i64>,
    pub reset_available: Option<i64>,
    pub reset_next_expiry: Option<i64>,
}

/// A window of the week: its label starts with `周`.
pub open spec fn is_weekly(w: NamedWindow) -> bool {
    w.label@.len() > 0 && w.label@[0] == '周'
}

/// `i` is the first weekly window of `ws`.
pub open spec fn first_weekly_at(ws: Seq<NamedWindow>, i: int) -> bool {
    0 <= i < ws.len() && is_weekly(ws[i]) && forall|j: int| 0 <= j < i ==> !is_weekly(#[trigger] ws[j])
}

/// `ws` has no weekly window.
pub open spec fn no_weekly(ws: Seq<NamedWindow>) -> bool {
    forall|j: int| 0 <= j < ws.len() ==> !is_weekly(#[trigger] ws[j])
}

/// A window whose reset time is computable at `now` without overflow.
pub open spec fn reset_computable(w: QuotaWindow, now: i64) -> bool {
    w.reset_at is None ==> (w.reset_in_secs matches Some(s) ==> i64::MIN <= now + s <= i64::MAX)
}

fn is_weekly_label(label: &String) -> (r: bool)
    ensures
        r == (label@.len() > 0 && label@[0] == '周'),
{
    let cs = text::chars_of(label.as_str());
    cs.len() > 0 && cs[0] == '周'
}

pub fn first_weekly(ws: &Vec<NamedWindow>) -> (r: Option<usize>)
    ensures
        match r {
            Some(i) => first_weekly_at(ws@, i as int),
            None => no_weekly(ws@),
        },
{
    let mut i: usize = 0;
    while i < ws.len()
        invariant
            i <= ws.len(),
            forall|j: int| 0 <= j < i ==> !is_weekly(#[trigger] ws@[j]),
        decreases ws.len() - i,
    {
        if is_weekly_label(&ws[i].label) {
            return Some(i);
        }
        i = i + 1;
    }
    None
}

/// The first weekly window of `ws`, if any.
pub open spec fn weekly_window(ws: Seq<NamedWindow>) -> Option<QuotaWindow> {
    if exists|i: int| first_weekly_at(ws, i) {
        Some(ws[choose|i: int| first_weekly_at(ws, i)].window)
    } else {
        None
    }
}

pub proof fn lemma_weekly_window(ws: Seq<NamedWindow>, i: int)
    requires
        first_weekly_at(ws, i),
    ensures
        weekly_window(ws) == Some(ws[i].window),
{
    let j = choose|j: int| first_weekly_at(ws, j);
    if j < i {
        assert(!is_weekly(ws[j]));
    }
    if i < j {
        assert(!is_weekly(ws[i]));
    }
}

/// The summary of a quota at `now`.
pub open spec fn quota_summary_of(q: Quota, now: i64) -> QuotaSummary {
    let w = weekly_window(q.windows@);
    QuotaSummary {
        plan: q.plan,
        weekly_remaining: match w {
            Some(x) => x.remaining,
            None => None,
        },
        weekly_reset_at: match w {
            Some(x) => match quota::reset_at_spec(x, now) {
                Some(t) => Some(t as i64),
                None => None,
            },
            None => None,
        },
        reset_available: match q.reset_detail {
            Some(d) => Some(d.available),
            None => q.reset_available,
        },
        reset_next_expiry: match q.reset_detail {
            Some(d) => quota::next_expiry_spec(d.credits@),
            None => None,
        },
    }
}

/// The first weekly window's reset time is computable at `now`.
pub open spec fn summary_ok(q: Quota, now: i64) -> bool {
    forall|i: int| first_weekly_at(q.windows@, i) ==> reset_computable(#[trigger] q.windows@[i].window, now)
}

impl QuotaSummary {
    /// The summary of a quota at `now`: the plan, the first weekly
    /// window's remaining share and reset time, and the reset credits
    /// (the detail's count before the usage response's).
    pub fn from_quota(quota: &Quota, now: i64) -> (r: QuotaSummary)
        requires
            summary_ok(*quota, now),
        ensures
            opt_view(r.plan) == opt_view(quota.plan),
            forall|i: int|
                #![trigger quota.windows@[i]]
                first_weekly_at(quota.windows@, i) ==> r.weekly_remaining
                    == quota.windows@[i].window.remaining && match r.weekly_reset_at {
                    Some(t) => quota::reset_at_spec(quota.windows@[i].window, now) == Some(t as int),
                    None => quota::reset_at_spec(quota.windows@[i].window, now) is None,
                },
            no_weekly(quota.windows@) ==> r.weekly_remaining is None && r.weekly_reset_at is None,
            r.reset_available == match quota.reset_detail {
                Some(d) => Some(d.available),
                None => quota.reset_available,
            },
            r.reset_next_expiry == match quota.reset_detail {
                Some(d) => quota::next_expiry_spec(d.credits@),
                None => None,
            },
            r == quota_summary_of(*quota, now),
    {
        let (weekly_remaining, weekly_reset_at) = match first_weekly(&quota.windows) {
            Some(i) => {
                proof {
                    lemma_weekly_window(quota.windows@, i as int);
                }
                let w = &quota.windows[i].window;
                (w.remaining, quota::reset_at_ts(w, now))
            },
            None => (None, None),
        };
        let reset_available = match &quota.reset_detail {
            Some(d) => Some(d.available),
            None => quota.reset_available,
        };
        let reset_next_expiry = match &quota.reset_detail {
            Some(d) => d.next_expiry(),
            None => None,
        };
        QuotaSummary {
            plan: crate::account::copy_opt(&quota.plan),
            weekly_remaining,
            weekly_reset_at,
            reset_available,
            reset_next_expiry,
        }
    }
}

} // verus!
