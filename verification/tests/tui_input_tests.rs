use hangar_core::account::Account;
use hangar_core::quota::{NamedWindow, Quota, QuotaWindow};
use hangar_core::recommendation::Reason;
use hangar_core::tui::{palette_item, Action, App, PALETTE_LEN};
use hangar_core::tui_input::{Effect, Key};

fn account(id: &str, email: &str, stale: bool) -> Account {
    Account {
        id: id.to_string(),
        email: email.to_string(),
        access_token: "at".to_string(),
        refresh_token: "rt".to_string(),
        id_token: String::new(),
        expires_at: 0,
        stale,
        account_id: None,
        organization_id: None,
    }
}

fn weekly(remaining: i32) -> Quota {
    Quota {
        plan: Some("Pro".to_string()),
        windows: vec![NamedWindow {
            label: "周".to_string(),
            window: QuotaWindow {
                remaining: Some(remaining),
                limit_secs: Some(604_800),
                reset_in_secs: None,
                reset_at: None,
            },
        }],
        reset_available: None,
        reset_detail: None,
    }
}

fn app_with_three() -> App {
    let mut app = App::new(0);
    app.accounts = vec![
        account("id-1", "alice@example.com", false),
        account("id-2", "bob@example.com", true),
        account("id-3", "carol@example.com", false),
    ];
    app.current = Some("id-1".to_string());
    app
}

fn last_log(app: &App) -> String {
    app.log.last().cloned().unwrap_or_default()
}

#[test]
fn new_app_starts_idle_with_the_help_line() {
    let app = App::new(42);
    assert_eq!(app.quota_now, 42);
    assert_eq!(app.log.len(), 1);
    assert!(app.log[0].starts_with("就绪"));
    assert!(!app.palette_open && !app.filtering && app.busy.is_none());
}

#[test]
fn list_keys_move_cyclically_and_quit() {
    let mut app = app_with_three();
    assert!(matches!(app.on_key(Key::Down), Effect::Nothing));
    assert_eq!(app.selected, 1);
    app.on_key(Key::Char('j'));
    app.on_key(Key::Char('j'));
    assert_eq!(app.selected, 0);
    app.on_key(Key::Up);
    assert_eq!(app.selected, 2);
    app.on_key(Key::Char('l'));
    assert!(app.log_expanded);
    app.on_key(Key::Char('Q'));
    assert!(app.should_quit);
}

#[test]
fn enter_switches_only_to_another_usable_account() {
    let mut app = app_with_three();
    // the account in use: only a note
    assert!(matches!(app.on_key(Key::Enter), Effect::Nothing));
    assert_eq!(last_log(&app), "ℹ alice@example.com 已是使用中的账号，无需切换");
    // a stale account: pointed at the palette
    app.selected = 1;
    assert!(matches!(app.on_key(Key::Enter), Effect::Nothing));
    assert_eq!(last_log(&app), "⚠ bob@example.com 已失效，用命令面板（:）选「复活账号」");
    // another usable account: the switch starts
    app.selected = 2;
    match app.on_key(Key::Enter) {
        Effect::Switch(id) => assert_eq!(id, "id-3"),
        other => panic!("unexpected {:?}", other),
    }
    assert_eq!(app.busy.as_deref(), Some("切换到 carol@example.com…"));
    // while busy only q is heard
    assert!(matches!(app.on_key(Key::Down), Effect::Nothing));
    assert_eq!(app.selected, 2);
    app.on_key(Key::Char('q'));
    assert!(app.should_quit);
}

#[test]
fn switching_waits_for_a_running_quota_query() {
    let mut app = app_with_three();
    app.quota_busy = true;
    app.selected = 2;
    assert!(matches!(app.on_key(Key::Enter), Effect::Nothing));
    assert_eq!(last_log(&app), "ℹ 配额查询期间可继续浏览；请等待查询结束后再切换账号");
    assert!(app.busy.is_none());
}

#[test]
fn filter_typing_edits_and_resets_selection() {
    let mut app = app_with_three();
    app.selected = 2;
    app.on_key(Key::Char('/'));
    assert!(app.filtering);
    assert_eq!(app.selected, 0);
    for c in "carx".chars() {
        app.on_key(Key::Char(c));
    }
    app.on_key(Key::Backspace);
    assert_eq!(app.filter, "car");
    assert_eq!(app.filtered(), vec![2]);
    app.on_key(Key::Enter);
    assert!(!app.filtering);
}

#[test]
fn palette_navigation_runs_the_highlighted_command() {
    let mut app = app_with_three();
    app.on_key(Key::Char(':'));
    assert!(app.palette_open);
    app.on_key(Key::Up);
    assert_eq!(app.palette_sel, PALETTE_LEN - 1);
    app.on_key(Key::Down);
    app.on_key(Key::Down);
    assert_eq!(app.palette_sel, 1);
    match app.on_key(Key::Enter) {
        Effect::Run(a) => assert_eq!(a, Action::Reauth),
        other => panic!("unexpected {:?}", other),
    }
    assert!(!app.palette_open);
    assert_eq!(app.palette_sel, 0);
}

#[test]
fn palette_filter_mode_types_and_escapes() {
    let mut app = app_with_three();
    app.on_key(Key::Char(':'));
    app.on_key(Key::Char('/'));
    assert_eq!(app.palette_input.as_deref(), Some(""));
    for c in "更新x".chars() {
        app.on_key(Key::Char(c));
    }
    app.on_key(Key::Backspace);
    assert_eq!(app.palette_input.as_deref(), Some("更新"));
    let vis = app.palette_visible();
    assert_eq!(vis.len(), 1);
    assert_eq!(palette_item(vis[0]).action, Action::Update);
    match app.on_key(Key::Enter) {
        Effect::Run(a) => assert_eq!(a, Action::Update),
        other => panic!("unexpected {:?}", other),
    }
    app.on_key(Key::Char(':'));
    app.on_key(Key::Char('/'));
    app.on_key(Key::Esc);
    assert!(app.palette_open && app.palette_input.is_none());
    app.on_key(Key::Esc);
    assert!(!app.palette_open);
}

#[test]
fn delete_needs_confirmation_and_refuses_the_account_in_use() {
    let mut app = app_with_three();
    assert!(matches!(app.begin_action(Action::Delete), Effect::Nothing));
    assert!(!app.confirm_delete);
    assert_eq!(last_log(&app), "⚠ alice@example.com 正在使用中，无法删除；请先切换到其他账号");
    app.selected = 2;
    app.begin_action(Action::Delete);
    assert!(app.confirm_delete);
    assert!(matches!(app.on_key(Key::Char('x')), Effect::Nothing));
    assert!(app.confirm_delete);
    match app.on_key(Key::Char('y')) {
        Effect::Delete(id, email) => {
            assert_eq!(id, "id-3");
            assert_eq!(email, "carol@example.com");
        }
        other => panic!("unexpected {:?}", other),
    }
    assert!(!app.confirm_delete);
    app.delete_done("carol@example.com", Ok(()));
    assert_eq!(last_log(&app), "✅ 已删除: carol@example.com");
    app.delete_done("carol@example.com", Err("boom".to_string()));
    assert_eq!(last_log(&app), "✗ boom");
}

#[test]
fn reauth_targets_the_selected_or_the_only_stale_account() {
    let mut app = app_with_three();
    match app.begin_action(Action::Reauth) {
        Effect::Reauth(id, email) => {
            assert_eq!(id, "id-2");
            assert_eq!(email, "bob@example.com");
        }
        other => panic!("unexpected {:?}", other),
    }
    app.accounts[2].stale = true;
    assert!(matches!(app.begin_action(Action::Reauth), Effect::Nothing));
    assert_eq!(last_log(&app), "ℹ 没有可复活账号（选中带 ⚠ 的账号，或确保只有一个失效账号）");
    app.selected = 2;
    assert!(matches!(app.begin_action(Action::Reauth), Effect::Reauth(_, _)));
}

#[test]
fn quota_commands_mark_pending_and_writes_wait() {
    let mut app = app_with_three();
    app.quota_errors.push(("id-3".to_string(), "old".to_string()));
    match app.begin_action(Action::QuotaAll) {
        Effect::Query(t) => assert_eq!(
            t,
            vec![
                ("id-1".to_string(), "alice@example.com".to_string()),
                ("id-3".to_string(), "carol@example.com".to_string())
            ]
        ),
        other => panic!("unexpected {:?}", other),
    }
    assert!(app.quota_busy);
    assert_eq!(app.quota_pending, vec!["id-1".to_string(), "id-3".to_string()]);
    assert!(app.quota_errors.is_empty());
    assert_eq!(last_log(&app), "开始查询 2 个账号配额…");
    assert!(matches!(app.begin_action(Action::QuotaCurrent), Effect::Nothing));
    assert_eq!(last_log(&app), "ℹ 配额查询正在进行中");
    assert!(matches!(app.begin_action(Action::Add), Effect::Nothing));
    assert_eq!(last_log(&app), "ℹ 配额查询期间可继续浏览；写操作请等待查询结束");
    assert!(matches!(app.begin_action(Action::Doctor), Effect::Doctor));
}

#[test]
fn quota_current_skips_stale_selection() {
    let mut app = app_with_three();
    app.selected = 1;
    assert!(matches!(app.begin_action(Action::QuotaCurrent), Effect::Nothing));
    assert_eq!(last_log(&app), "ℹ 选中账号已失效或不存在，无法查询配额");
    app.selected = 0;
    match app.begin_action(Action::QuotaCurrent) {
        Effect::Query(t) => assert_eq!(t.len(), 1),
        other => panic!("unexpected {:?}", other),
    }
    assert_eq!(last_log(&app), "开始查询 alice@example.com 的配额…");
}

#[test]
fn startup_queries_every_healthy_account() {
    let mut app = app_with_three();
    assert!(matches!(app.start_startup_queries(), Effect::Query(_)));
    assert_eq!(last_log(&app), "开始查询 2 个账号的周剩余…");
    let mut empty = App::new(0);
    assert!(matches!(empty.start_startup_queries(), Effect::Nothing));
    assert_eq!(empty.log.len(), 1);
}

#[test]
fn finished_queries_log_the_recommendation() {
    let mut app = app_with_three();
    app.quota_busy = true;
    app.quotas.push(("id-1".to_string(), weekly(40)));
    app.quotas.push(("id-3".to_string(), weekly(70)));
    let rec = app.quotas_done(99).expect("a recommendation");
    assert_eq!(rec.account_id, "id-3");
    assert_eq!(rec.reason, Reason::HigherWeeklyRemaining);
    assert!(!app.quota_busy);
    assert_eq!(app.quota_now, 99);
    assert_eq!(last_log(&app), "✅ 配额查询完成；建议使用 carol@example.com（周剩余 70%）");
    app.quotas[1].1 = weekly(45);
    app.quotas_done(100);
    assert_eq!(last_log(&app), "✅ 配额查询完成；建议继续使用 alice@example.com（周剩余 40%）");
    app.quotas.clear();
    assert!(app.quotas_done(101).is_none());
    assert_eq!(last_log(&app), "✅ 配额查询完成；暂无可用建议");
}

#[test]
fn outcomes_of_background_work_are_logged() {
    let mut app = app_with_three();
    app.busy = Some("x".to_string());
    app.switch_done("carol@example.com", Ok(()), true);
    assert!(app.busy.is_none());
    let n = app.log.len();
    assert_eq!(app.log[n - 2], "✅ 已切换到: carol@example.com");
    assert_eq!(app.log[n - 1], "ℹ 检测到 Codex 正在运行，请重启 Codex 生效");
    app.login_done(Ok("dave@example.com".to_string()), false);
    assert_eq!(last_log(&app), "✅ 已添加账号: dave@example.com（未激活，选中回车切换）");
    app.reauth_done("bob@example.com", Err("denied".to_string()), false);
    assert_eq!(last_log(&app), "✗ denied");
    app.harvest_done(Ok((3, true)));
    assert_eq!(last_log(&app), "✅ 已从官方 auth.json 收敛（3 个账号，有更新）");
    app.harvest_done(Ok((3, false)));
    assert_eq!(last_log(&app), "✅ 已从官方 auth.json 收敛（3 个账号）");
    app.harvest_done(Err("bad".to_string()));
    assert_eq!(last_log(&app), "✗ 收敛失败：bad");
    app.busy = Some("检查更新中…".to_string());
    app.update_done(Ok(Some("0.9.0".to_string())));
    assert!(app.busy.is_none());
    assert_eq!(last_log(&app), "✅ 已升级到 0.9.0，请重启 hangar 生效");
    app.update_done(Ok(None));
    assert_eq!(last_log(&app), "已是最新版本");
    app.update_done(Err("net".to_string()));
    assert_eq!(last_log(&app), "✗ 更新失败：net（旧版继续可用）");
}

#[test]
fn doctor_report_scrolls_and_closes() {
    let mut app = app_with_three();
    app.doctor_done(Ok(vec!["✅ ok".to_string(), "⚠ w".to_string()]));
    app.on_key(Key::Char('j'));
    app.on_key(Key::Down);
    app.on_key(Key::Up);
    assert_eq!(app.doctor_view.as_ref().map(|d| d.1), Some(1));
    app.on_key(Key::Char('k'));
    app.on_key(Key::Char('k'));
    assert_eq!(app.doctor_view.as_ref().map(|d| d.1), Some(0));
    app.on_key(Key::Esc);
    assert!(app.doctor_view.is_none());
    app.doctor_done(Err("no library".to_string()));
    assert_eq!(last_log(&app), "✗ no library");
}

#[test]
fn harvest_is_due_every_six_hundred_ticks() {
    let mut app = App::new(0);
    let mut due = 0;
    for _ in 0..1200 {
        if app.on_tick() {
            due += 1;
        }
    }
    assert_eq!(due, 2);
    assert_eq!(app.tick, 1200);
}

#[test]
fn a_relogin_never_claims_a_switch() {
    let mut app = app_with_three();
    let current_before = app.current.clone();
    let n = app.log.len();
    app.reauth_done("bob@example.com", Ok(false), true);
    assert_eq!(app.log.len(), n + 1);
    assert_eq!(last_log(&app), "✅ 已重新登录: bob@example.com（当前账号未改变）");
    assert_eq!(app.current, current_before);
    app.reauth_done("alice@example.com", Ok(true), true);
    let n = app.log.len();
    assert_eq!(app.log[n - 2], "✅ 已重新登录: alice@example.com（使用中账号的凭据已同步）");
    assert_eq!(app.log[n - 1], "ℹ 检测到 Codex 正在运行，请重启 Codex 生效");
    app.reauth_done("alice@example.com", Ok(true), false);
    assert_eq!(last_log(&app), "✅ 已重新登录: alice@example.com（使用中账号的凭据已同步）");
    assert!(!app.log.iter().any(|l| l.contains("切换到: bob")));
}
