use hangar_core::account::{Account, AccountError, AccountErrorKind, AccountsFile};
use hangar_core::commands::{
    confirm_remove, current_line, list_line, quota_heading, quota_targets_for, window_line, CommandError,
    ErrorKind,
};
use hangar_core::overview::{columns, heading, quota_value, title, Column};
use hangar_core::quota::{NamedWindow, Quota, QuotaWindow};
use hangar_core::recommendation::{recommend, Reason};
use hangar_core::selector::{current, resolve};
use hangar_core::ui::{account_line, bold, success};

fn account(id: &str, stale: bool) -> Account {
    Account {
        id: id.to_string(),
        email: format!("{id}@example.com"),
        access_token: "at".to_string(),
        refresh_token: "rt".to_string(),
        id_token: String::new(),
        expires_at: 0,
        stale,
        account_id: None,
        organization_id: None,
    }
}

fn quota(weekly: Option<i32>) -> Quota {
    Quota {
        plan: None,
        windows: vec![NamedWindow {
            label: "周".to_string(),
            window: QuotaWindow {
                remaining: weekly,
                limit_secs: Some(604_800),
                reset_in_secs: None,
                reset_at: None,
            },
        }],
        reset_available: None,
        reset_detail: None,
    }
}

fn quotas(rows: &[(&str, Option<i32>)]) -> Vec<(String, Quota)> {
    rows.iter().map(|(id, remaining)| ((*id).to_string(), quota(*remaining))).collect()
}

#[test]
fn recommends_higher_weekly_when_gap_exceeds_threshold() {
    let accounts = vec![account("current", false), account("best", false)];
    let result =
        recommend(&accounts, Some("current"), &quotas(&[("current", Some(40)), ("best", Some(51))]))
            .unwrap();
    assert_eq!(result.account_id, "best");
    assert_eq!(result.weekly_remaining, 51);
    assert_eq!(result.reason, Reason::HigherWeeklyRemaining);
}

#[test]
fn keeps_current_when_gap_is_at_most_threshold() {
    let accounts = vec![account("current", false), account("best", false)];
    let result =
        recommend(&accounts, Some("current"), &quotas(&[("current", Some(40)), ("best", Some(50))]))
            .unwrap();
    assert_eq!(result.account_id, "current");
    assert_eq!(result.weekly_remaining, 40);
    assert_eq!(result.reason, Reason::KeepCurrent);
}

#[test]
fn equal_values_prefer_current_account() {
    let accounts = vec![account("first", false), account("current", false)];
    let result =
        recommend(&accounts, Some("current"), &quotas(&[("first", Some(70)), ("current", Some(70))]))
            .unwrap();
    assert_eq!(result.account_id, "current");
    assert_eq!(result.reason, Reason::KeepCurrent);
}

#[test]
fn excludes_stale_and_unknown_accounts() {
    let accounts = vec![account("unknown", false), account("stale", true), account("usable", false)];
    let result = recommend(
        &accounts,
        None,
        &quotas(&[("unknown", None), ("stale", Some(99)), ("usable", Some(20))]),
    )
    .unwrap();
    assert_eq!(result.account_id, "usable");
    assert_eq!(result.weekly_remaining, 20);
}

#[test]
fn ignores_non_weekly_windows() {
    let accounts = vec![account("session-only", false)];
    let mut session = quota(Some(90));
    session.windows[0].label = "会话5h".to_string();
    let quotas = vec![("session-only".to_string(), session)];
    assert!(recommend(&accounts, None, &quotas).is_none());
}

#[test]
fn ties_between_other_accounts_go_to_the_first() {
    let accounts = vec![account("a", false), account("b", false)];
    let r = recommend(&accounts, None, &quotas(&[("a", Some(60)), ("b", Some(60))])).unwrap();
    assert_eq!(r.account_id, "a");
    assert_eq!(r.reason, Reason::HigherWeeklyRemaining);
}

fn sel_account(id: &str, email: &str) -> Account {
    Account {
        id: id.into(),
        email: email.into(),
        access_token: "secret-at".into(),
        refresh_token: "secret-rt".into(),
        id_token: "secret-id".into(),
        expires_at: 0,
        stale: false,
        account_id: None,
        organization_id: None,
    }
}

#[test]
fn resolves_full_id_or_unique_normalized_email() {
    let file = AccountsFile {
        accounts: vec![sel_account("a", "Alice@Example.com")],
        current_account_id: Some("a".into()),
    };
    assert_eq!(resolve(&file, "a").unwrap().id, "a");
    assert_eq!(resolve(&file, " alice@example.com ").unwrap().id, "a");
    assert_eq!(current(&file).unwrap().id, "a");
}

#[test]
fn rejects_missing_and_ambiguous_email() {
    let file = AccountsFile {
        accounts: vec![sel_account("a", "same@example.com"), sel_account("b", "same@example.com")],
        current_account_id: None,
    };
    assert!(resolve(&file, "missing@example.com").is_err());
    let err = resolve(&file, "same@example.com").unwrap_err();
    assert!(err.contains("完整 ID"));
    assert!(current(&file).is_err());
}

#[test]
fn selector_messages() {
    let file = AccountsFile {
        accounts: vec![sel_account("a", "same@example.com"), sel_account("b", "same@example.com")],
        current_account_id: Some("zz".into()),
    };
    assert_eq!(resolve(&file, "  ").unwrap_err(), "账号选择器不能为空");
    assert_eq!(resolve(&file, "x@y").unwrap_err(), "未找到账号: x@y");
    assert_eq!(
        resolve(&file, "same@example.com").unwrap_err(),
        "邮箱 same@example.com 对应 2 个账号，请改用完整 ID：a, b"
    );
    assert_eq!(current(&file).unwrap_err(), "当前账号指向不存在的 ID: zz");
}

#[test]
fn account_error_kinds_map_without_parsing_messages() {
    let map = |kind| match kind {
        AccountErrorKind::State => ErrorKind::State,
        AccountErrorKind::Auth => ErrorKind::Auth,
        AccountErrorKind::External => ErrorKind::External,
        AccountErrorKind::Internal => ErrorKind::Internal,
    };
    assert_eq!(map(AccountErrorKind::Auth), ErrorKind::Auth);
    assert_eq!(map(AccountErrorKind::External), ErrorKind::External);
}

#[test]
fn command_errors_keep_kind_and_exit_code() {
    let e = CommandError::from_account(AccountError::new(AccountErrorKind::Auth, "no".into()));
    assert_eq!(e.kind, ErrorKind::Auth);
    assert_eq!(e.message, "no");
    assert_eq!(ErrorKind::Usage.exit_code(), 2);
    assert_eq!(ErrorKind::External.exit_code(), 5);
    assert_eq!(confirm_remove(false).unwrap_err().kind, ErrorKind::Usage);
    assert!(confirm_remove(true).is_ok());
    let file = AccountsFile {
        accounts: vec![account("a", false), account("s", true)],
        current_account_id: Some("a".into()),
    };
    let all = quota_targets_for(&file, None, true).unwrap();
    assert_eq!(all.len(), 1);
    assert_eq!(all[0].id, "a");
    let err = quota_targets_for(&file, Some(account("s", true)), false).unwrap_err();
    assert_eq!(err.kind, ErrorKind::Auth);
    let cur = quota_targets_for(&file, None, false).unwrap();
    assert_eq!(cur[0].id, "a");
}

#[test]
fn columns_degrade_for_narrow_terminals() {
    assert_eq!(columns(120).len(), 6);
    assert_eq!(columns(80).len(), 6);
    assert_eq!(columns(70).len(), 4);
    assert_eq!(columns(50).len(), 3);
}

#[test]
fn overview_cells_distinguish_pending_failed_and_old() {
    let pending = vec!["a".to_string()];
    let errors = vec![("b".to_string(), "network".to_string())];
    let times = vec![("c".to_string(), 1_000u64)];
    assert_eq!(quota_value("a", None, &pending, &errors, &times, Column::Week, 1_000), "查询中");
    assert_eq!(quota_value("b", None, &pending, &errors, &times, Column::Week, 1_000), "失败");
    assert_eq!(quota_value("d", None, &pending, &errors, &times, Column::Week, 1_000), "待查询");
    let q = quota(Some(70));
    assert_eq!(quota_value("c", Some(&q), &pending, &errors, &times, Column::Week, 1_100), "70%");
    assert_eq!(quota_value("c", Some(&q), &pending, &errors, &times, Column::Week, 9_000), "70% 旧");
    assert_eq!(heading(Column::Access), "AT");
    assert_eq!(title(3, ""), " 账号总览 (3) ");
    assert_eq!(title(3, "bob"), " 账号总览 [bob] ");
}

#[test]
fn styling_without_colour_is_plain() {
    assert_eq!(bold("x", false), "x");
    assert_eq!(bold("x", true), "\u{1b}[1mx\u{1b}[0m");
    assert_eq!(success("done", false), "✅ done");
    assert_eq!(account_line(3, "a@b", true, true, false), "   3. a@b ● 使用中 ⚠ 需重新登录");
    assert_eq!(account_line(12, "a@b", false, false, false), "  12. a@b");
}

#[test]
fn plain_listing_lines() {
    let mut a = Account {
        id: "id-a".into(),
        email: "alice@example.com".into(),
        access_token: "secret-at".into(),
        refresh_token: "secret-rt".into(),
        id_token: String::new(),
        expires_at: 0,
        stale: false,
        account_id: None,
        organization_id: None,
    };
    assert_eq!(list_line(&a, true), "id-a\talice@example.com\tcurrent");
    a.stale = true;
    assert_eq!(list_line(&a, false), "id-a\talice@example.com\tinactive\tstale");
    assert_eq!(current_line(&a), "id-a\talice@example.com");
    assert!(!list_line(&a, false).contains("secret"));
    assert_eq!(quota_heading("a@x", &Some("Pro".into())), "a@x [Pro]");
    assert_eq!(quota_heading("a@x", &None), "a@x [-]");
    assert_eq!(window_line("周", Some(40), Some("2026-01-01 00:00".into())), "  周 剩余 40% 重置于 2026-01-01 00:00");
    assert_eq!(window_line("周", None, None), "  周 剩余 未知 重置于 未知");
}
