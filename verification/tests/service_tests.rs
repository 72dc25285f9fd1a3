use hangar_core::account::{Account, AccountError, AccountErrorKind, AccountsFile};
use hangar_core::doctor::DoctorFacts;
use hangar_core::dto::{
    bridge_info,
    BridgeError, ErrorCode, LoginPhase, QuotaLoadState, RefreshPhase, RefreshSnapshot, SwitchResult,
};
use hangar_core::quota::{NamedWindow, Quota, QuotaWindow};
use hangar_core::quota_cache::{Entry, TTL_SECS};
use hangar_core::tui::{insert_key, remove_key};
use hangar_core::service::{account_error, check_reauth_account, fresh_quotas, refresh_order, HangarService, LoginMode};

fn account(id: &str, stale: bool) -> Account {
    Account {
        id: id.into(),
        email: format!("{id}@example.com"),
        access_token: "opaque".into(),
        refresh_token: "rt".into(),
        id_token: String::new(),
        expires_at: u64::MAX,
        stale,
        account_id: None,
        organization_id: None,
    }
}

fn quota(value: i32) -> Quota {
    Quota {
        plan: Some("Pro 20x".into()),
        windows: vec![NamedWindow {
            label: "周".into(),
            window: QuotaWindow {
                remaining: Some(value),
                limit_secs: Some(604_800),
                reset_in_secs: None,
                reset_at: None,
            },
        }],
        reset_available: None,
        reset_detail: None,
    }
}

/// Drives one refresh the way the bridge's worker does: install the
/// library, fetch what the service says is next, then recommend.
fn run_refresh(
    service: &mut HangarService,
    generation: u64,
    file: &AccountsFile,
    cache: &Vec<(String, Entry)>,
    now: u64,
    fetch: &mut dyn FnMut(&str) -> Result<(Account, Quota), String>,
) -> RefreshSnapshot {
    if !service.install_accounts(generation, file, cache, now) {
        return service.refresh_snapshot();
    }
    let mut quotas = fresh_quotas(&file.accounts, cache, now);
    let mut from = 0;
    loop {
        let i = service.next_fetch(&file.accounts, cache, from, now);
        if i >= file.accounts.len() {
            break;
        }
        let id = file.accounts[i].id.clone();
        if !service.mark_loading(generation, &id) {
            return service.refresh_snapshot();
        }
        service.record_attempt(&id, now);
        let result = fetch(&id);
        match &result {
            Ok((_, q)) => insert_key(&mut quotas, id.clone(), q.clone()),
            Err(_) => remove_key(&mut quotas, &id),
        }
        if !service.apply_quota_result(generation, &id, result, now) {
            return service.refresh_snapshot();
        }
        from = i + 1;
    }
    service.finish_refresh(generation, file, &quotas);
    service.refresh_snapshot()
}

#[test]
fn recent_cache_is_visible_without_automatic_request_but_manual_refresh_runs() {
    let now = 1_000_000;
    let file = AccountsFile { accounts: vec![account("a", false)], current_account_id: Some("a".into()) };
    let cache = vec![("a".to_string(), Entry { fetched_at: now, quota: quota(55) })];
    let mut calls = 0;
    let mut service = HangarService::new();
    let g = service.start_refresh_due();
    let snapshot = run_refresh(&mut service, g, &file, &cache, now, &mut |_| {
        calls += 1;
        Ok((account("a", false), quota(60)))
    });
    assert_eq!(calls, 0);
    assert_eq!(snapshot.accounts[0].quota.as_ref().unwrap().weekly_remaining, Some(55));
    assert!(snapshot.accounts[0].recommended);

    let g = service.start_refresh_all();
    assert_eq!(service.refresh_snapshot().accounts.len(), 1);
    let snapshot = run_refresh(&mut service, g, &file, &cache, now, &mut |_| {
        calls += 1;
        Ok((account("a", false), quota(60)))
    });
    assert_eq!(calls, 1);
    assert_eq!(snapshot.accounts[0].quota.as_ref().unwrap().weekly_remaining, Some(60));
}

#[test]
fn failed_refresh_keeps_old_quota_visible_and_unrecommended() {
    let now = 1_000_000;
    let file = AccountsFile { accounts: vec![account("a", false)], current_account_id: Some("a".into()) };
    let cache = vec![("a".to_string(), Entry { fetched_at: now - TTL_SECS - 1, quota: quota(55) })];
    let mut service = HangarService::new();
    let g = service.start_refresh_due();
    let snapshot = run_refresh(&mut service, g, &file, &cache, now, &mut |_| Err("offline".into()));
    assert_eq!(snapshot.accounts[0].quota.as_ref().unwrap().weekly_remaining, Some(55));
    assert_eq!(snapshot.accounts[0].quota_state, QuotaLoadState::Failed);
    assert!(!snapshot.accounts[0].quota_is_fresh);
    assert!(!snapshot.accounts[0].recommended);
}

#[test]
fn refreshes_healthy_accounts_sequentially_in_library_order() {
    let file = AccountsFile {
        accounts: vec![account("a", false), account("stale", true), account("b", false)],
        current_account_id: Some("a".into()),
    };
    let mut calls: Vec<String> = Vec::new();
    let mut service = HangarService::new();
    let g = service.start_refresh_all();
    let snapshot = run_refresh(&mut service, g, &file, &Vec::new(), 1_000, &mut |id| {
        calls.push(id.to_string());
        Ok((account(id, false), quota(if id == "a" { 40 } else { 60 })))
    });
    assert_eq!(snapshot.phase, RefreshPhase::Succeeded);
    assert_eq!(calls, ["a", "b"]);
    assert_eq!(snapshot.accounts[1].quota_state, QuotaLoadState::Stale);
    assert!(!snapshot.accounts[0].recommended);
    assert!(snapshot.accounts[2].recommended);
}

#[test]
fn newer_generation_rejects_late_results() {
    let file = AccountsFile { accounts: vec![account("a", false)], current_account_id: None };
    let mut service = HangarService::new();
    let old = service.start_refresh_all();
    assert!(service.install_accounts(old, &file, &Vec::new(), 1_000));
    assert!(service.mark_loading(old, "a"));
    let current = service.start_refresh_all();
    assert!(current > old);
    // the old refresh's late result is turned away
    assert!(!service.apply_quota_result(old, "a", Ok((account("a", false), quota(50))), 1_000));
    let snapshot = run_refresh(&mut service, current, &file, &Vec::new(), 1_000, &mut |id| {
        Ok((account(id, false), quota(50)))
    });
    assert_eq!(snapshot.generation, current);
    assert_eq!(snapshot.phase, RefreshPhase::Succeeded);
}

#[test]
fn cancellation_is_terminal_and_idempotent() {
    let mut service = HangarService::new();
    let generation = service.start_refresh_all();
    assert!(service.cancel_refresh(generation));
    assert!(!service.cancel_refresh(generation));
    assert_eq!(service.refresh_snapshot().phase, RefreshPhase::Cancelled);
    let file = AccountsFile { accounts: vec![account("a", false)], current_account_id: None };
    assert!(!service.install_accounts(generation, &file, &Vec::new(), 1_000));
    assert_eq!(service.refresh_snapshot().phase, RefreshPhase::Cancelled);
}

#[test]
fn login_sessions_are_numbered_polled_and_released() {
    let mut service = HangarService::new();
    let first = service.register_login(LoginMode::Add).unwrap();
    let second = service.register_login(LoginMode::Reauth("a".into())).unwrap();
    assert_eq!((first, second), (1, 2));
    assert_eq!(service.login_index(second).unwrap(), 1);
    match service.login_index(7) {
        Err(BridgeError::State { message }) => assert_eq!(message, "OAuth 会话不存在: 7"),
        other => panic!("unexpected {:?}", other.is_ok()),
    }
    let i = service.login_index(first).unwrap();
    assert!(!service.needs_commit(i, LoginPhase::Waiting));
    assert!(service.needs_commit(i, LoginPhase::Succeeded));
    let waiting = service.login_snapshot(i, LoginPhase::Waiting, None);
    assert_eq!(waiting.phase, LoginPhase::Waiting);
    assert_eq!(waiting.error_code, None);
    let failed = service.login_snapshot(i, LoginPhase::Failed, Some("denied".into()));
    assert_eq!(failed.error_code, Some(ErrorCode::Auth));
    assert_eq!(failed.message.as_deref(), Some("denied"));
    service.record_commit(i, Ok(()));
    assert!(!service.needs_commit(i, LoginPhase::Succeeded));
    let j = service.login_index(second).unwrap();
    service.record_commit(j, Err(BridgeError::Internal { message: "disk".into() }));
    let snap = service.login_snapshot(j, LoginPhase::Succeeded, None);
    assert_eq!(snap.session_id, second);
    assert_eq!(snap.phase, LoginPhase::Failed);
    assert_eq!(snap.error_code, Some(ErrorCode::Internal));
    assert_eq!(snap.message.as_deref(), Some("内部错误: disk"));
    assert!(service.release_login(first));
    assert!(!service.release_login(first));
    assert_eq!(service.login_index(second).unwrap(), 0);
    service.close();
    assert!(service.register_login(LoginMode::Add).is_err());
}

#[test]
fn reauth_needs_an_account_of_the_library() {
    let file = AccountsFile { accounts: vec![account("a", false)], current_account_id: None };
    assert!(check_reauth_account(&file, "a").is_ok());
    match check_reauth_account(&file, "zz") {
        Err(BridgeError::State { message }) => assert_eq!(message, "账号未找到: zz"),
        _ => panic!("expected a state error"),
    }
}

#[test]
fn account_errors_keep_their_kind_and_message() {
    let e = account_error(AccountError::new(AccountErrorKind::Auth, "重新登录".to_string()));
    assert_eq!(e.code(), ErrorCode::Auth);
    assert_eq!(e.to_message(), "认证错误: 重新登录");
    let e = account_error(AccountError::new(AccountErrorKind::State, "x".to_string()));
    assert!(matches!(e, BridgeError::State { ref message } if message == "x"));
    let e = account_error(AccountError::new(AccountErrorKind::External, "net".to_string()));
    assert_eq!(e.code(), ErrorCode::External);
    let e = account_error(AccountError::new(AccountErrorKind::Internal, "disk".to_string()));
    assert_eq!(e.code(), ErrorCode::Internal);
}

#[test]
fn bridge_login_calls_register_poll_and_refuse() {
    let mut service = HangarService::new();
    let start = service.start_login("https://auth/1".to_string()).unwrap();
    assert_eq!(start.session_id, 1);
    assert_eq!(start.authorization_url, "https://auth/1");
    let file = AccountsFile { accounts: vec![account("a", false)], current_account_id: None };
    match service.start_reauth(&file, "zz".to_string(), "https://auth/x".to_string()) {
        Err(BridgeError::State { message }) => assert_eq!(message, "账号未找到: zz"),
        _ => panic!("expected a state error"),
    }
    let again = service.start_reauth(&file, "a".to_string(), "https://auth/2".to_string()).unwrap();
    assert_eq!(again.session_id, 2);
    let snap = service.poll_login(2, LoginPhase::Waiting, None).unwrap();
    assert_eq!(snap.session_id, 2);
    assert_eq!(snap.phase, LoginPhase::Waiting);
    match service.poll_login(9, LoginPhase::Waiting, None) {
        Err(BridgeError::State { message }) => assert_eq!(message, "OAuth 会话不存在: 9"),
        _ => panic!("expected a state error"),
    }
    let facts = DoctorFacts {
        accounts_path: "/h/a.json".into(),
        accounts: Err("bad json".into()),
        expiry_offsets: vec![],
        backup_exists: false,
        file_mode: None,
        dir_mode: None,
        auth_json: None,
        config_toml: None,
        lock_age: None,
        last_check: None,
        now: 0,
    };
    let report = service.doctor(&facts, "1.0").unwrap();
    assert_eq!(report.issue_count, 1);
    assert_eq!(report.lines, vec!["✗ 账号库损坏且 .bak 无法恢复：bad json".to_string()]);
    service.close();
    assert!(service.start_login("u".to_string()).is_err());
    assert!(service.doctor(&facts, "1.0").is_err());
}

#[test]
fn switch_outcomes_are_recorded_once_for_their_generation() {
    let mut service = HangarService::new();
    let g = service.start_switch().unwrap();
    assert!(service.begin_switch(g));
    assert_eq!(service.switch_snapshot().phase, RefreshPhase::Running);
    service.finish_switch(g + 1, Err(BridgeError::External { message: "late".into() }));
    assert_eq!(service.switch_snapshot().phase, RefreshPhase::Running);
    service.finish_switch(g, Err(BridgeError::Auth { message: "需要重新登录".into() }));
    let snap = service.switch_snapshot();
    assert_eq!(snap.generation, g);
    assert_eq!(snap.phase, RefreshPhase::Failed);
    assert_eq!(snap.error_code, Some(ErrorCode::Auth));
    assert_eq!(snap.message.as_deref(), Some("认证错误: 需要重新登录"));
    let g2 = service.start_switch().unwrap();
    assert!(g2 > g);
    assert!(service.begin_switch(g2));
    service.finish_switch(
        g2,
        Ok(SwitchResult { account_id: "a".into(), email: "a@example.com".into(), codex_running: false }),
    );
    let snap = service.switch_snapshot();
    assert_eq!(snap.phase, RefreshPhase::Succeeded);
    assert_eq!(snap.result.as_ref().map(|r| r.account_id.as_str()), Some("a"));
}

#[test]
fn bridge_contract_has_explicit_version() {
    let info = bridge_info();
    assert_eq!(info.interface_version, 4);
    assert!(!info.core_version.is_empty());
}

#[test]
fn the_refresh_kind_decides_what_is_fetched_next() {
    let now = 1_000_000;
    let file = AccountsFile {
        accounts: vec![account("a", false), account("s", true), account("b", false)],
        current_account_id: None,
    };
    let cache = vec![("a".to_string(), Entry { fetched_at: now, quota: quota(50) })];
    let mut service = HangarService::new();
    let _ = service.start_refresh_due();
    assert!(!service.state.force);
    assert_eq!(service.next_fetch(&file.accounts, &cache, 0, now), 2);
    assert_eq!(service.next_fetch(&file.accounts, &cache, 3, now), 3);
    let _ = service.start_refresh_all();
    assert!(service.state.force);
    assert_eq!(service.next_fetch(&file.accounts, &cache, 0, now), 0);
    assert_eq!(service.next_fetch(&file.accounts, &cache, 1, now), 2);
}

#[test]
fn closing_asks_every_login_session_to_stop() {
    let mut service = HangarService::new();
    let a = service.start_login("u1".to_string()).unwrap().session_id;
    let b = service.start_login("u2".to_string()).unwrap().session_id;
    assert!(service.cancel_login(a));
    assert!(!service.cancel_login(a));
    assert!(!service.cancel_login(99));
    assert!(service.login_sessions[0].cancel_requested);
    assert!(!service.login_sessions[1].cancel_requested);
    service.close();
    assert!(service.login_sessions.iter().all(|e| e.cancel_requested));
    assert_eq!(service.login_sessions[1].session_id, b);
    assert_eq!(service.start_refresh_all(), 0);
    assert_eq!(service.start_refresh_due(), 0);
}

#[test]
fn bridge_delete_and_callback_calls() {
    let mut service = HangarService::new();
    let mut file = AccountsFile {
        accounts: vec![account("a", false), account("b", false)],
        current_account_id: Some("a".into()),
    };
    assert!(matches!(service.delete_account(&mut file, "a"), Err(BridgeError::State { .. })));
    assert!(matches!(service.delete_account(&mut file, "zz"), Err(BridgeError::State { .. })));
    assert!(service.delete_account(&mut file, "b").is_ok());
    assert_eq!(file.accounts.len(), 1);
    let s = service.start_login("u".to_string()).unwrap().session_id;
    let url = "http://localhost:1455/auth/callback?code=abc&state=st";
    assert_eq!(service.submit_callback(s, url, "st").unwrap(), "abc");
    assert!(matches!(service.submit_callback(s, url, "other"), Err(BridgeError::Auth { .. })));
    assert!(matches!(service.submit_callback(42, url, "st"), Err(BridgeError::State { .. })));
    service.close();
    assert!(matches!(service.delete_account(&mut file, "a"), Err(BridgeError::State { .. })));
    assert_eq!(file.accounts.len(), 1);
}

#[test]
fn after_close_every_start_is_refused() {
    let mut service = HangarService::new();
    let g = service.start_refresh_due();
    service.close();
    assert_eq!(service.refresh_snapshot().phase, RefreshPhase::Cancelled);
    assert_eq!(service.refresh_snapshot().generation, g);
    assert_eq!(service.start_refresh_all(), 0);
    assert_eq!(service.start_refresh_due(), 0);
    assert!(matches!(service.start_switch(), Err(BridgeError::State { .. })));
    assert!(matches!(service.start_login("u".to_string()), Err(BridgeError::State { .. })));
    assert!(service.ensure_open().is_err());
}
