use base64::engine::general_purpose::URL_SAFE_NO_PAD;
use base64::Engine;
use hangar_core::account::{
    backup_name, chrono_rfc3339, codex_home_override, delete_account, is_disk_full,
    harvest_merge, harvest_with_new_id, is_jwt_expired_soon, is_jwt_expired_soon_at, normalize_email, official_tokens, pick_fresh_id_token,
    pick_fresh_id_token_at, reauth_account, temp_name, upsert_logged_in_account, Account,
    AccountErrorKind, AccountsFile,
};

fn now_secs() -> i64 {
    std::time::SystemTime::now()
        .duration_since(std::time::UNIX_EPOCH)
        .unwrap_or_default()
        .as_secs() as i64
}

fn make_jwt(exp: i64) -> String {
    let h = URL_SAFE_NO_PAD.encode(r#"{"alg":"none"}"#);
    let p = URL_SAFE_NO_PAD.encode(format!(r#"{{"exp":{}}}"#, exp));
    format!("{}.{}.sig", h, p)
}

fn account(id: &str, email: &str, token: &str) -> Account {
    Account {
        id: id.into(),
        email: email.into(),
        access_token: format!("at-{token}"),
        refresh_token: format!("rt-{token}"),
        id_token: format!("id-{token}"),
        expires_at: 42,
        stale: false,
        account_id: Some("acct".into()),
        organization_id: Some("org".into()),
    }
}

#[test]
fn chrono_rfc3339_matches_python_baseline() {
    let vectors = [
        (1_758_337_200u64, "2025-09-20T03:00:00Z"),
        (0, "1970-01-01T00:00:00Z"),
        (4_102_444_800, "2100-01-01T00:00:00Z"),
        (951_782_401, "2000-02-29T00:00:01Z"),
    ];
    for (ts, expected) in vectors {
        assert_eq!(chrono_rfc3339(ts), expected, "ts={}", ts);
    }
}

#[test]
fn jwt_exp_and_skew_window() {
    let now = now_secs();
    assert!(!is_jwt_expired_soon(&make_jwt(now + 3600)));
    assert!(is_jwt_expired_soon(&make_jwt(now + 60)));
    assert!(is_jwt_expired_soon("not-a-jwt"));
}

#[test]
fn fresh_id_token_picker_rejects_expired() {
    let now = now_secs();
    let fresh = make_jwt(now + 3600);
    let expired = make_jwt(now - 3600);
    assert_eq!(pick_fresh_id_token(Some(fresh.clone()), "old"), Some(fresh));
    assert_eq!(pick_fresh_id_token(Some(expired), "old"), None);
    assert_eq!(pick_fresh_id_token(Some("old".to_string()), "old"), None);
}

#[test]
fn normalize_email_trims_and_lowercases() {
    assert_eq!(normalize_email("  Foo@Bar.COM "), "foo@bar.com");
}

#[test]
fn skew_window_is_exactly_three_hundred_seconds_at_a_fixed_clock() {
    let now = 1_000_000u64;
    assert!(is_jwt_expired_soon_at(&make_jwt(1_000_299), now));
    assert!(!is_jwt_expired_soon_at(&make_jwt(1_000_300), now));
    assert!(is_jwt_expired_soon_at("", now));
}

#[test]
fn picker_at_fixed_clock_trims_and_compares_with_current() {
    let now = 1_000_000u64;
    let fresh = make_jwt(2_000_000);
    let padded = format!("  {}  ", fresh);
    assert_eq!(pick_fresh_id_token_at(Some(padded), "old", now), Some(fresh.clone()));
    assert_eq!(pick_fresh_id_token_at(Some(fresh.clone()), &format!(" {} ", fresh), now), None);
    assert_eq!(pick_fresh_id_token_at(Some("   ".to_string()), "old", now), None);
    assert_eq!(pick_fresh_id_token_at(None, "old", now), None);
}

#[test]
fn adding_account_never_changes_current_account() {
    let mut file = AccountsFile {
        accounts: vec![account("active", "active@example.com", "old")],
        current_account_id: Some("active".into()),
    };
    upsert_logged_in_account(&mut file, account("new", "new@example.com", "new"));
    assert_eq!(file.current_account_id.as_deref(), Some("active"));
    assert_eq!(file.accounts.len(), 2);
}

#[test]
fn adding_existing_identity_updates_in_place_without_switching() {
    let mut old = account("kept-id", "User@Example.com", "old");
    old.stale = true;
    let mut file = AccountsFile {
        accounts: vec![old],
        current_account_id: Some("another-id".into()),
    };
    let fresh = account("oauth-new-id", "user@example.com", "fresh");
    upsert_logged_in_account(&mut file, fresh);
    assert_eq!(file.accounts.len(), 1);
    assert_eq!(file.accounts[0].id, "kept-id");
    assert_eq!(file.accounts[0].access_token, "at-fresh");
    assert!(!file.accounts[0].stale);
    assert_eq!(file.current_account_id.as_deref(), Some("another-id"));
}

#[test]
fn same_email_with_different_account_id_stays_distinct() {
    let mut file = AccountsFile {
        accounts: vec![account("one", "user@example.com", "one")],
        current_account_id: Some("one".into()),
    };
    let mut second = account("two", "user@example.com", "two");
    second.account_id = Some("different-account".into());
    upsert_logged_in_account(&mut file, second);
    assert_eq!(file.accounts.len(), 2);
    assert_eq!(file.current_account_id.as_deref(), Some("one"));
}

#[test]
fn delete_refuses_the_current_account_and_removes_another() {
    let mut file = AccountsFile {
        accounts: vec![account("a", "a@example.com", "a"), account("b", "b@example.com", "b")],
        current_account_id: Some("a".into()),
    };
    let err = delete_account(&mut file, "a").unwrap_err();
    assert_eq!(err.kind, AccountErrorKind::State);
    assert_eq!(file.accounts.len(), 2);
    let missing = delete_account(&mut file, "zzz").unwrap_err();
    assert_eq!(missing.kind, AccountErrorKind::State);
    assert!(delete_account(&mut file, "b").is_ok());
    assert_eq!(file.accounts.len(), 1);
    assert_eq!(file.accounts[0].id, "a");
    assert_eq!(file.current_account_id.as_deref(), Some("a"));
}

#[test]
fn reauth_updates_in_place_and_keeps_current() {
    let mut stale = account("b", "b@example.com", "old");
    stale.stale = true;
    let mut file = AccountsFile {
        accounts: vec![account("a", "a@example.com", "a"), stale],
        current_account_id: Some("a".into()),
    };
    let fresh = account("oauth", "b@example.com", "new");
    let is_current = reauth_account(&mut file, "b", &fresh).unwrap();
    assert!(!is_current);
    assert_eq!(file.accounts[1].id, "b");
    assert_eq!(file.accounts[1].access_token, "at-new");
    assert!(!file.accounts[1].stale);
    assert_eq!(file.current_account_id.as_deref(), Some("a"));
}

#[test]
fn file_names_and_codex_home_values() {
    assert_eq!(backup_name(Some("auth.json")), "auth.json.bak");
    assert_eq!(backup_name(None), "file.bak");
    assert_eq!(temp_name(Some("accounts.json"), 42, 7), ".accounts.json.tmp.42.7.atomic");
    assert_eq!(codex_home_override("  \"/tmp/codex\"  ").as_deref(), Some("/tmp/codex"));
    assert_eq!(codex_home_override(" '' "), None);
    assert!(is_disk_full(Some(28), ""));
    assert!(is_disk_full(None, "write: No space left on device"));
    assert!(!is_disk_full(Some(5), "denied"));
}

#[test]
fn logging_in_twice_as_one_identity_keeps_one_entry() {
    let mut file = AccountsFile {
        accounts: vec![account("one", "one@example.com", "one")],
        current_account_id: Some("one".into()),
    };
    upsert_logged_in_account(&mut file, account("two", "two@example.com", "first"));
    assert_eq!(file.accounts.len(), 2);
    upsert_logged_in_account(&mut file, account("three", "two@example.com", "second"));
    assert_eq!(file.accounts.len(), 2);
    assert_eq!(file.accounts[1].id, "two");
    assert_eq!(file.accounts[1].access_token, "at-second");
    assert_eq!(file.current_account_id.as_deref(), Some("one"));
}

fn id_token_for(email: &str, exp: i64) -> String {
    let h = URL_SAFE_NO_PAD.encode(r#"{"alg":"none"}"#);
    let p = URL_SAFE_NO_PAD.encode(format!(r#"{{"email":"{}","exp":{}}}"#, email, exp));
    format!("{}.{}.sig", h, p)
}

fn auth_json(access: &str, refresh: &str, id_token: &str) -> String {
    format!(
        r#"{{"tokens":{{"access_token":"{}","refresh_token":"{}","id_token":"{}","account_id":"acct"}}}}"#,
        access, refresh, id_token
    )
}

#[test]
fn harvest_adopts_an_unknown_official_account_and_makes_it_current() {
    let mut file = AccountsFile {
        accounts: vec![account("one", "one@example.com", "one")],
        current_account_id: Some("one".into()),
    };
    let idt = id_token_for("New@Example.com", 4_000_000_000);
    let t = official_tokens(&auth_json("at-off", "rt-off", &idt)).expect("tokens");
    let r = harvest_merge(&mut file, &t, 1_000, "adopted-id");
    assert!(r.changed && r.adopted);
    assert_eq!(r.email.as_deref(), Some("new@example.com"));
    assert_eq!(r.account_count, 2);
    assert_eq!(file.accounts[1].id, "adopted-id");
    assert_eq!(file.accounts[1].email, "new@example.com");
    assert_eq!(file.accounts[1].refresh_token, "rt-off");
    assert_eq!(file.accounts[1].account_id.as_deref(), Some("acct"));
    assert_eq!(file.current_account_id.as_deref(), Some("adopted-id"));
}

#[test]
fn harvest_takes_rotated_tokens_into_the_known_account() {
    let mut old = account("one", "User@Example.com", "old");
    old.stale = true;
    let mut file = AccountsFile { accounts: vec![old], current_account_id: None };
    let idt = id_token_for("user@example.com", 4_000_000_000);
    let t = official_tokens(&auth_json("at-new", "rt-new", &idt)).expect("tokens");
    let r = harvest_merge(&mut file, &t, 1_000, "unused");
    assert!(r.changed && !r.adopted);
    assert_eq!(file.accounts.len(), 1);
    assert_eq!(file.accounts[0].id, "one");
    assert_eq!(file.accounts[0].access_token, "at-new");
    assert_eq!(file.accounts[0].refresh_token, "rt-new");
    assert_eq!(file.accounts[0].id_token, idt);
    assert!(!file.accounts[0].stale);
    assert_eq!(file.accounts[0].expires_at, 1_000 + 3600);
    assert_eq!(file.current_account_id.as_deref(), Some("one"));
}

#[test]
fn a_second_harvest_of_the_same_file_changes_nothing() {
    let mut file = AccountsFile {
        accounts: vec![account("one", "one@example.com", "one")],
        current_account_id: Some("one".into()),
    };
    let expired = id_token_for("two@example.com", 10);
    let t = official_tokens(&auth_json("at-two", "rt-two", &expired)).expect("tokens");
    let first = harvest_merge(&mut file, &t, 1_000, "two-id");
    assert!(first.changed);
    let before: Vec<String> = file.accounts.iter().map(|a| format!("{a:?}")).collect();
    let second = harvest_merge(&mut file, &t, 2_000, "other-id");
    assert!(!second.changed && !second.adopted);
    let after: Vec<String> = file.accounts.iter().map(|a| format!("{a:?}")).collect();
    assert_eq!(after, before);
    assert_eq!(file.current_account_id.as_deref(), Some("two-id"));
}

#[test]
fn harvest_without_tokens_or_email_leaves_the_library_alone() {
    let mut file = AccountsFile {
        accounts: vec![account("one", "one@example.com", "one")],
        current_account_id: Some("one".into()),
    };
    let t = official_tokens(&auth_json("", "", "x.y.z")).expect("tokens");
    let r = harvest_merge(&mut file, &t, 1_000, "id");
    assert!(!r.changed && r.email.is_none());
    let t = official_tokens(&auth_json("at", "rt", "not-a-jwt")).expect("tokens");
    let r = harvest_merge(&mut file, &t, 1_000, "id");
    assert!(!r.changed && r.email.is_none());
    assert_eq!(file.accounts.len(), 1);
    assert!(official_tokens("{}").is_none());
    assert!(official_tokens("not json").is_none());
}

#[test]
fn an_adopted_account_gets_a_fresh_random_id() {
    let mut file = AccountsFile { accounts: vec![], current_account_id: None };
    let idt = id_token_for("solo@example.com", 4_000_000_000);
    let t = official_tokens(&auth_json("at", "rt", &idt)).expect("tokens");
    let r = harvest_with_new_id(&mut file, &t, 1_000);
    assert!(r.adopted);
    assert_eq!(file.accounts[0].id.len(), 36);
    assert_eq!(file.current_account_id.as_deref(), Some(file.accounts[0].id.as_str()));
}
