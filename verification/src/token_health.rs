//! Token health rules: which expiry wins (the JWT's own `exp` over the
//! ledger), how an access token is classified, and what a refresh failure
//! means for projecting credentials. No network or file I/O.

use crate::jwt;
use crate::text;
use vstd::prelude::*;

verus! {

/// Seconds before expiry at which an access token counts as expiring.
pub const REFRESH_SKEW_SECS: u64 = 300;

/// Where an effective expiry came from.
#[derive(Debug, Clone, Copy, PartialEq, Eq, Structural)]
pub enum ExpirySource {
    Jwt,
    Ledger,
}

/// Classification of an access token at a moment.
#[derive(Debug, Clone, Copy, PartialEq, Eq, Structural)]
pub enum AccessTokenState {
    Missing,
    Fresh,
    Expiring,
    Expired,
    Unknown,
}

/// Health of an account's tokens at a moment.
#[derive(Debug, Clone, Copy, PartialEq, Eq, Structural)]
pub struct TokenHealth {
    pub access: AccessTokenState,
    pub expires_at: Option<i64>,
    pub expiry_source: Option<ExpirySource>,
    pub has_refresh_token: bool,
    pub stale: bool,
}

/// What to do when refreshing an access token failed.
#[derive(Debug, Clone, Copy, PartialEq, Eq, Structural)]
pub enum RefreshFailureAction {
    MarkStale,
    ContinueWithCurrentAccess,
    AbortWithoutStale,
}

impl TokenHealth {
    /// A missing, expiring or expired access token must be refreshed.
    pub open spec fn needs_refresh_spec(self) -> bool {
        self.access is Missing || self.access is Expiring || self.access is Expired
    }

    /// Credentials may be projected as they are: not stale, and a fresh
    /// or unknown (non-JWT, legacy) access token.
    pub open spec fn can_project_spec(self) -> bool {
        !self.stale && (self.access is Fresh || self.access is Unknown)
    }

    /// The short label of a health state.
    pub open spec fn label_spec(self) -> Seq<char> {
        if self.stale {
            "stale"@
        } else {
            match self.access {
                AccessTokenState::Missing => "missing"@,
                AccessTokenState::Fresh => "fresh"@,
                AccessTokenState::Expiring => "expiring"@,
                AccessTokenState::Expired => "expired"@,
                AccessTokenState::Unknown => "unknown"@,
            }
        }
    }

    pub fn needs_refresh(self) -> (r: bool)
        ensures
            r == self.needs_refresh_spec(),
    {
        match self.access {
            AccessTokenState::Missing | AccessTokenState::Expiring | AccessTokenState::Expired => true,
            _ => false,
        }
    }

    /// `Unknown` stays projectable for legacy and non-JWT tokens; missing,
    /// expiring and expired tokens must be refreshed first.
    pub fn can_project_without_refresh(self) -> (r: bool)
        ensures
            r == self.can_project_spec(),
    {
        !self.stale && match self.access {
            AccessTokenState::Fresh | AccessTokenState::Unknown => true,
            _ => false,
        }
    }

    pub fn label(self) -> (r: &'static str)
        ensures
            r@ == self.label_spec(),
    {
        if self.stale {
            return "stale";
        }
        match self.access {
            AccessTokenState::Missing => "missing",
            AccessTokenState::Fresh => "fresh",
            AccessTokenState::Expiring => "expiring",
            AccessTokenState::Expired => "expired",
            AccessTokenState::Unknown => "unknown",
        }
    }
}

/// The failure policy: an auth rejection marks the account stale; any other
/// failure continues only while the current access token may be projected.
pub open spec fn refresh_failure_spec(
    health: TokenHealth,
    auth_rejected: bool,
) -> RefreshFailureAction {
    if auth_rejected {
        RefreshFailureAction::MarkStale
    } else if health.can_project_spec() {
        RefreshFailureAction::ContinueWithCurrentAccess
    } else {
        RefreshFailureAction::AbortWithoutStale
    }
}

pub fn classify_refresh_failure(health_before_refresh: TokenHealth, auth_rejected: bool) -> (r:
    RefreshFailureAction)
    ensures
        r == refresh_failure_spec(health_before_refresh, auth_rejected),
{
    if auth_rejected {
        RefreshFailureAction::MarkStale
    } else if health_before_refresh.can_project_without_refresh() {
        RefreshFailureAction::ContinueWithCurrentAccess
    } else {
        RefreshFailureAction::AbortWithoutStale
    }
}

/// The `exp` claim of a JWT access token.
pub fn jwt_exp(token: &str) -> (r: Option<i64>)
    ensures
        r == jwt::exp_of(token@),
{
    jwt::jwt_exp(token)
}

/// The effective expiry: the JWT's `exp` when it has one, else a positive
/// ledger value that fits `i64`, else none.
pub open spec fn effective_expiry_spec(access_token: Seq<char>, ledger_expires_at: u64) -> Option<
    (i64, ExpirySource),
> {
    match jwt::exp_of(access_token) {
        Some(exp) => Some((exp, ExpirySource::Jwt)),
        None => if 0 < ledger_expires_at <= i64::MAX {
            Some((ledger_expires_at as i64, ExpirySource::Ledger))
        } else {
            None
        },
    }
}

pub fn effective_expiry(access_token: &str, ledger_expires_at: u64) -> (r: Option<(i64, ExpirySource)>)
    ensures
        r == effective_expiry_spec(access_token@, ledger_expires_at),
{
    match jwt_exp(access_token) {
        Some(exp) => Some((exp, ExpirySource::Jwt)),
        None => if ledger_expires_at > 0 && ledger_expires_at <= i64::MAX as u64 {
            Some((ledger_expires_at as i64, ExpirySource::Ledger))
        } else {
            None
        },
    }
}

/// The access-token state at `now`: missing when blank, expired at or
/// before `now`, expiring within the skew window, fresh after it, unknown
/// without an expiry.
pub open spec fn access_state_spec(blank: bool, expiry: Option<(i64, ExpirySource)>, now: u64) -> AccessTokenState {
    if blank {
        AccessTokenState::Missing
    } else {
        match expiry {
            Some((exp, _)) => if exp <= now as i64 {
                AccessTokenState::Expired
            } else if exp <= (if now + REFRESH_SKEW_SECS > u64::MAX {
                u64::MAX
            } else {
                (now + REFRESH_SKEW_SECS) as u64
            }) as i64 {
                AccessTokenState::Expiring
            } else {
                AccessTokenState::Fresh
            },
            None => AccessTokenState::Unknown,
        }
    }
}

/// The full assessment of an account's tokens at `now`.
pub open spec fn assess_spec(
    access_token: Seq<char>,
    refresh_token: Seq<char>,
    ledger_expires_at: u64,
    stale: bool,
    now: u64,
) -> TokenHealth {
    let expiry = effective_expiry_spec(access_token, ledger_expires_at);
    TokenHealth {
        access: access_state_spec(text::trim_spec(access_token).len() == 0, expiry, now),
        expires_at: match expiry {
            Some((exp, _)) => Some(exp),
            None => None,
        },
        expiry_source: match expiry {
            Some((_, source)) => Some(source),
            None => None,
        },
        has_refresh_token: text::trim_spec(refresh_token).len() != 0,
        stale,
    }
}

pub fn assess(
    access_token: &str,
    refresh_token: &str,
    ledger_expires_at: u64,
    stale: bool,
    now: u64,
) -> (r: TokenHealth)
    ensures
        r == assess_spec(access_token@, refresh_token@, ledger_expires_at, stale, now),
{
    let expiry = effective_expiry(access_token, ledger_expires_at);
    let blank = text::trim(access_token).as_str().is_empty();
    let access = if blank {
        AccessTokenState::Missing
    } else {
        match expiry {
            Some((exp, _)) => if exp <= now as i64 {
                AccessTokenState::Expired
            } else if exp <= now.saturating_add(REFRESH_SKEW_SECS) as i64 {
                AccessTokenState::Expiring
            } else {
                AccessTokenState::Fresh
            },
            None => AccessTokenState::Unknown,
        }
    };
    TokenHealth {
        access,
        expires_at: match expiry {
            Some((exp, _)) => Some(exp),
            None => None,
        },
        expiry_source: match expiry {
            Some((_, source)) => Some(source),
            None => None,
        },
        has_refresh_token: !text::trim(refresh_token).as_str().is_empty(),
        stale,
    }
}

/// A stale account is never projectable, whatever its tokens.
pub proof fn lemma_stale_never_projectable(
    access_token: Seq<char>,
    refresh_token: Seq<char>,
    ledger_expires_at: u64,
    now: u64,
)
    ensures
        !assess_spec(access_token, refresh_token, ledger_expires_at, true, now).can_project_spec(),
{
}

/// The JWT expiry always wins over the ledger when the token carries one.
pub proof fn lemma_jwt_expiry_overrides_ledger(access_token: Seq<char>, ledger_a: u64, ledger_b: u64)
    requires
        jwt::exp_of(access_token) is Some,
    ensures
        effective_expiry_spec(access_token, ledger_a) == effective_expiry_spec(access_token, ledger_b),
{
}

/// A token that needs refreshing is never projectable without it, and an
/// auth rejection always marks the account stale.
pub proof fn lemma_failure_policy(health: TokenHealth, auth_rejected: bool)
    ensures
        health.needs_refresh_spec() && !auth_rejected ==> refresh_failure_spec(health, auth_rejected)
            == RefreshFailureAction::AbortWithoutStale,
        auth_rejected ==> refresh_failure_spec(health, auth_rejected) == RefreshFailureAction::MarkStale,
{
}

/// The expiry an assessment reports is the effective one: the access
/// token's own `exp` when it has one (from the JWT), else a positive
/// recorded expiry (from the ledger), else none; and its source says which.
pub proof fn law_reported_expiry_is_the_effective_one(
    access_token: Seq<char>,
    refresh_token: Seq<char>,
    ledger: u64,
    stale: bool,
    now: u64,
)
    ensures
        ({
            let h = assess_spec(access_token, refresh_token, ledger, stale, now);
            &&& jwt::exp_of(access_token) is Some ==> h.expires_at == jwt::exp_of(access_token)
                && h.expiry_source == Some(ExpirySource::Jwt)
            &&& jwt::exp_of(access_token) is None && 0 < ledger <= i64::MAX ==> h.expires_at == Some(
                ledger as i64,
            ) && h.expiry_source == Some(ExpirySource::Ledger)
            &&& jwt::exp_of(access_token) is None && !(0 < ledger <= i64::MAX) ==> h.expires_at is None
                && h.expiry_source is None
            &&& h.has_refresh_token == (text::trim_spec(refresh_token).len() != 0)
            &&& h.stale == stale
        }),
{
}

/// The state of an access token follows its reported expiry: missing when
/// blank; otherwise expired at or after the expiry, expiring within the
/// refresh skew before it, fresh before that, unknown without an expiry.
pub proof fn law_access_state_follows_the_expiry(
    access_token: Seq<char>,
    refresh_token: Seq<char>,
    ledger: u64,
    stale: bool,
    now: u64,
)
    requires
        now + REFRESH_SKEW_SECS <= i64::MAX,
    ensures
        ({
            let h = assess_spec(access_token, refresh_token, ledger, stale, now);
            let blank = text::trim_spec(access_token).len() == 0;
            &&& blank ==> h.access == AccessTokenState::Missing
            &&& !blank && h.expires_at is None ==> h.access == AccessTokenState::Unknown
            &&& !blank && h.expires_at is Some && h.expires_at->0 <= now ==> h.access
                == AccessTokenState::Expired
            &&& !blank && h.expires_at is Some && now < h.expires_at->0 <= now + REFRESH_SKEW_SECS
                ==> h.access == AccessTokenState::Expiring
            &&& !blank && h.expires_at is Some && h.expires_at->0 > now + REFRESH_SKEW_SECS ==> h.access
                == AccessTokenState::Fresh
        }),
{
}

} // verus!
