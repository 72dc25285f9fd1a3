use base64::engine::general_purpose::URL_SAFE_NO_PAD;
use base64::Engine;
use hangar_core::token_health::{
    assess, classify_refresh_failure, AccessTokenState, ExpirySource, RefreshFailureAction,
};

fn jwt(exp: i64) -> String {
    let payload = URL_SAFE_NO_PAD.encode(format!(r#"{{"exp":{exp}}}"#));
    format!("x.{payload}.y")
}

#[test]
fn jwt_expiry_overrides_conflicting_ledger() {
    let health = assess(&jwt(900), "rt", 9_000, false, 1_000);
    assert_eq!(health.access, AccessTokenState::Expired);
    assert_eq!(health.expiry_source, Some(ExpirySource::Jwt));
}

#[test]
fn ledger_is_used_only_when_jwt_expiry_is_unavailable() {
    let health = assess("opaque", "rt", 2_000, false, 1_000);
    assert_eq!(health.access, AccessTokenState::Fresh);
    assert_eq!(health.expiry_source, Some(ExpirySource::Ledger));
}

#[test]
fn missing_and_expiring_tokens_cannot_be_projected() {
    assert!(!assess("", "rt", 0, false, 1_000).can_project_without_refresh());
    assert!(!assess(&jwt(1_200), "rt", 0, false, 1_000).can_project_without_refresh());
    assert!(assess("opaque", "", 0, false, 1_000).can_project_without_refresh());
}

#[test]
fn refresh_failure_policy_separates_auth_and_transient_errors() {
    let fresh = assess("opaque", "rt", 2_000, false, 1_000);
    let expired = assess("opaque", "rt", 900, false, 1_000);
    assert_eq!(
        classify_refresh_failure(fresh, false),
        RefreshFailureAction::ContinueWithCurrentAccess
    );
    assert_eq!(
        classify_refresh_failure(expired, false),
        RefreshFailureAction::AbortWithoutStale
    );
    assert_eq!(classify_refresh_failure(fresh, true), RefreshFailureAction::MarkStale);
}

#[test]
fn stale_accounts_are_labelled_and_never_projected() {
    let h = assess("opaque", "rt", 2_000, true, 1_000);
    assert_eq!(h.label(), "stale");
    assert!(!h.can_project_without_refresh());
    assert_eq!(assess("opaque", "rt", 1_200, false, 1_000).label(), "expiring");
}
