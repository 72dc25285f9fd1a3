use hangar_core::account::Account;
use hangar_core::operation::{OperationErrorCode, TaskPhase, TaskStatus};
use hangar_core::quota::{NamedWindow, Quota, QuotaWindow, ResetCredit, ResetCredits};
use hangar_core::quota_cache::{due, merge_success, normalize_reset_times, usable_file, Entry, TTL_SECS};
use hangar_core::summary::{AccessTokenSummaryState, AccountSummary, QuotaSummary};

fn quota(remaining: i32) -> Quota {
    Quota {
        windows: vec![NamedWindow {
            label: "周".into(),
            window: QuotaWindow { remaining: Some(remaining), reset_in_secs: Some(60), ..QuotaWindow::default() },
        }],
        ..Quota::default()
    }
}

#[test]
fn ttl_boundary_and_future_timestamp() {
    let entry = Entry { fetched_at: 100, quota: quota(50) };
    assert!(!due(Some(&entry), 100 + TTL_SECS - 1, false));
    assert!(due(Some(&entry), 100 + TTL_SECS, false));
    assert!(due(Some(&entry), 99, false));
    assert!(due(Some(&entry), 101, true));
}

#[test]
fn merging_keeps_newer_account_and_absolute_reset_time() {
    let mut entries: Vec<(String, Entry)> = Vec::new();
    assert!(merge_success(&mut entries, "a", quota(70), 1000));
    assert!(merge_success(&mut entries, "b", quota(40), 1100));
    assert!(!merge_success(&mut entries, "a", quota(10), 900));
    assert_eq!(entries.len(), 2);
    let a = &entries.iter().find(|(k, _)| k == "a").unwrap().1;
    assert_eq!(a.quota.windows[0].window.remaining, Some(70));
    assert_eq!(a.quota.windows[0].window.reset_at, Some(1060));
    assert_eq!(a.quota.windows[0].window.reset_in_secs, None);
    assert!(merge_success(&mut entries, "a", quota(20), 1200));
    let a = &entries.iter().find(|(k, _)| k == "a").unwrap().1;
    assert_eq!(a.fetched_at, 1200);
    assert_eq!(a.quota.windows[0].window.remaining, Some(20));
}

#[test]
fn cache_files_of_other_schemas_or_too_large_are_ignored() {
    assert!(usable_file(10, 1));
    assert!(!usable_file(10, 99));
    assert!(!usable_file(2 * 1024 * 1024, 1));
}

#[test]
fn normalizing_fixes_relative_resets() {
    let mut q = quota(5);
    normalize_reset_times(&mut q, 500);
    assert_eq!(q.windows[0].window.reset_at, Some(560));
    assert_eq!(q.windows[0].window.reset_in_secs, None);
    assert_eq!(q.windows[0].label, "周");
}

#[test]
fn task_terminal_state_is_explicit() {
    let running = TaskStatus { request_id: 7, phase: TaskPhase::Running, error_code: None };
    let failed = TaskStatus {
        request_id: 7,
        phase: TaskPhase::Failed,
        error_code: Some(OperationErrorCode::External),
    };
    assert!(!running.is_terminal());
    assert!(failed.is_terminal());
}

#[test]
fn quota_summary_only_uses_weekly_window() {
    let quota = Quota {
        plan: Some("Pro 20x".into()),
        windows: vec![
            NamedWindow {
                label: "会话5h".into(),
                window: QuotaWindow {
                    remaining: Some(99),
                    limit_secs: Some(18_000),
                    reset_in_secs: None,
                    reset_at: Some(2_000),
                },
            },
            NamedWindow {
                label: "周".into(),
                window: QuotaWindow {
                    remaining: Some(42),
                    limit_secs: Some(604_800),
                    reset_in_secs: None,
                    reset_at: Some(3_000),
                },
            },
        ],
        reset_available: Some(1),
        reset_detail: Some(ResetCredits {
            available: 2,
            total_earned: Some(3),
            credits: vec![
                ResetCredit { title: None, available: false, expires_at: Some(1_000) },
                ResetCredit { title: None, available: true, expires_at: Some(4_000) },
            ],
        }),
    };
    let summary = QuotaSummary::from_quota(&quota, 1_000);
    assert_eq!(summary.weekly_remaining, Some(42));
    assert_eq!(summary.weekly_reset_at, Some(3_000));
    assert_eq!(summary.reset_available, Some(2));
    assert_eq!(summary.reset_next_expiry, Some(4_000));
}

#[test]
fn account_summary_carries_no_credentials() {
    let account = Account {
        id: "id".into(),
        email: "a@example.com".into(),
        access_token: "access-secret".into(),
        refresh_token: "refresh-secret".into(),
        id_token: "id-secret".into(),
        expires_at: 2_000,
        stale: false,
        account_id: Some("acct".into()),
        organization_id: None,
    };
    let s = AccountSummary::from_account(&account, true, 1_000);
    let text = format!("{:?}", s);
    for secret in ["access-secret", "refresh-secret", "id-secret"] {
        assert!(!text.contains(secret));
    }
    assert_eq!(s.token_health.status, AccessTokenSummaryState::Fresh);
    assert!(s.current);
    assert_eq!(s.expires_at, Some(2_000));
}
