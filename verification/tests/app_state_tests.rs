use hangar_core::account::{Account, AccountsFile};
use hangar_core::doctor::{doctor_lines, reset_provider_routes, DoctorFacts};
use hangar_core::dto::{QuotaLoadState, RefreshPhase};
use hangar_core::operation::OperationErrorCode;
use hangar_core::process::{codex_in_tasklist, codex_running_in_ps};
use hangar_core::quota::{NamedWindow, Quota, QuotaWindow};
use hangar_core::quota_cache::Entry;
use hangar_core::recommendation::weekly_remaining;
use hangar_core::service::{refresh_order, HangarService};
use hangar_core::tray::{icon_argb32, tool_tip_text, tray_menu, MenuEntry};
use hangar_core::overview::{cell, columns, heading, title};
use hangar_core::recommendation::recommend;
use hangar_core::tui::{palette_item, Action, App, PALETTE_LEN};

fn fake_account(id: &str, email: &str, stale: bool) -> Account {
    Account {
        id: id.to_string(),
        email: email.to_string(),
        access_token: "at".to_string(),
        refresh_token: "rt".to_string(),
        id_token: String::new(),
        expires_at: 0,
        stale,
        account_id: None,
        organization_id: None,
    }
}

fn fake_app() -> App {
    App {
        accounts: vec![
            fake_account("id-1", "alice@example.com", false),
            fake_account("id-2", "bob@example.com", true),
        ],
        current: Some("id-1".to_string()),
        selected: 0,
        filter: String::new(),
        filtering: false,
        log: vec!["hello log".to_string()],
        busy: None,
        confirm_delete: false,
        doctor_view: None,
        quotas: Vec::new(),
        quota_pending: Vec::new(),
        quota_errors: Vec::new(),
        quota_now: 0,
        quota_busy: false,
        log_expanded: false,
        should_quit: false,
        tick: 0,
        palette_open: false,
        palette_input: None,
        palette_sel: 0,
    }
}

fn weekly_quota(remaining: i32) -> Quota {
    Quota {
        plan: Some("Pro".to_string()),
        windows: vec![NamedWindow {
            label: "周".to_string(),
            window: QuotaWindow {
                remaining: Some(remaining),
                limit_secs: Some(604_800),
                reset_in_secs: None,
                reset_at: None,
            },
        }],
        reset_available: None,
        reset_detail: None,
    }
}

#[test]
fn startup_quota_targets_every_healthy_account_in_library_order() {
    let mut app = fake_app();
    assert_eq!(
        app.quota_targets(),
        vec![("id-1".to_string(), "alice@example.com".to_string())]
    );
    app.accounts[1].stale = false;
    assert_eq!(
        app.quota_targets(),
        vec![
            ("id-1".to_string(), "alice@example.com".to_string()),
            ("id-2".to_string(), "bob@example.com".to_string())
        ]
    );
    app.accounts[0].stale = true;
    app.accounts[1].stale = true;
    assert!(app.quota_targets().is_empty());
}

#[test]
fn quota_result_updates_refreshed_account_snapshot() {
    let mut app = fake_app();
    app.quota_pending.push("id-1".into());
    let mut refreshed = fake_account("id-1", "alice@example.com", false);
    refreshed.access_token = "refreshed-at".into();
    refreshed.refresh_token = "rotated-rt".into();

    app.apply_quota_result("id-1".into(), "alice@example.com".into(), Ok((refreshed, weekly_quota(66))));

    assert_eq!(app.accounts[0].access_token, "refreshed-at");
    assert_eq!(app.accounts[0].refresh_token, "rotated-rt");
    assert_eq!(
        app.quotas.iter().find(|(k, _)| k == "id-1").and_then(|(_, q)| weekly_remaining(q)),
        Some(66)
    );
    assert!(!app.quota_pending.iter().any(|p| p == "id-1"));
}

#[test]
fn palette_has_separate_current_and_all_quota_actions() {
    let mut app = fake_app();
    app.palette_input = Some("当前配额".to_string());
    let current = app.palette_visible();
    assert_eq!(current.len(), 1);
    assert_eq!(palette_item(current[0]).action, Action::QuotaCurrent);

    app.palette_input = Some("全部配额".to_string());
    let all = app.palette_visible();
    assert_eq!(all.len(), 1);
    assert_eq!(palette_item(all[0]).action, Action::QuotaAll);
}

#[test]
fn palette_filters_delete_and_update_and_shows_all_while_choosing() {
    let mut app = fake_app();
    app.palette_input = Some("删除".to_string());
    let vis = app.palette_visible();
    assert_eq!(vis.len(), 1);
    assert_eq!(palette_item(vis[0]).action, Action::Delete);
    app.palette_input = Some("升级".to_string());
    let vis = app.palette_visible();
    assert_eq!(vis.len(), 1);
    assert_eq!(palette_item(vis[0]).action, Action::Update);
    app.palette_input = None;
    assert_eq!(app.palette_visible().len(), PALETTE_LEN);
}

#[test]
fn filter_and_selection_clamp() {
    let mut app = fake_app();
    app.selected = 1;
    app.filter = " BOB ".to_string();
    app.clamp_selection();
    assert_eq!(app.filtered(), vec![1]);
    assert_eq!(app.selected, 0);
    assert_eq!(app.selected_account().unwrap().id, "id-2");
    app.filter = "nobody".to_string();
    app.clamp_selection();
    assert_eq!(app.selected, 0);
    assert!(app.selected_account().is_none());
}

#[test]
fn failed_quota_is_logged_and_the_log_is_capped() {
    let mut app = fake_app();
    app.quotas.push(("id-1".into(), weekly_quota(10)));
    app.apply_quota_result("id-1".into(), "alice@example.com".into(), Err("network".into()));
    assert!(app.quotas.is_empty());
    assert_eq!(app.quota_errors, vec![("id-1".to_string(), "network".to_string())]);
    assert_eq!(app.log.last().unwrap(), "✗ alice@example.com：network");
    for i in 0..300 {
        app.push_log(format!("line {i}"));
    }
    assert_eq!(app.log.len(), 200);
    assert_eq!(app.log.last().unwrap(), "line 299");
    assert_eq!(app.log[0], "line 100");
}

#[test]
fn initial_snapshot_is_idle_so_gui_can_start_first_refresh() {
    let service = HangarService::new();
    let snapshot = service.refresh_snapshot();
    assert_eq!(snapshot.generation, 0);
    assert_eq!(snapshot.phase, RefreshPhase::Succeeded);
}

fn svc_account(id: &str, stale: bool) -> Account {
    Account {
        id: id.into(),
        email: format!("{id}@example.com"),
        access_token: "opaque".into(),
        refresh_token: "rt".into(),
        id_token: String::new(),
        expires_at: u64::MAX,
        stale,
        account_id: None,
        organization_id: None,
    }
}

fn svc_quota(value: i32) -> Quota {
    Quota {
        plan: Some("Pro 20x".into()),
        windows: vec![NamedWindow {
            label: "周".into(),
            window: QuotaWindow {
                remaining: Some(value),
                limit_secs: Some(604_800),
                reset_in_secs: None,
                reset_at: None,
            },
        }],
        reset_available: None,
        reset_detail: None,
    }
}

#[test]
fn refresh_generations_reject_late_results_and_cancel_once() {
    let mut service = HangarService::new();
    let file = AccountsFile {
        accounts: vec![svc_account("a", false), svc_account("stale", true), svc_account("b", false)],
        current_account_id: Some("a".into()),
    };
    let old = service.start_refresh_all();
    let cur = service.start_refresh_due();
    assert!(cur > old);
    assert!(!service.install_accounts(old, &file, &Vec::new(), 1_000));
    assert!(service.install_accounts(cur, &file, &Vec::new(), 1_000));
    assert_eq!(refresh_order(&file.accounts), vec![0, 2]);
    assert!(service.mark_loading(cur, "a"));
    assert!(!service.mark_loading(old, "a"));
    assert!(service.apply_quota_result(cur, "a", Ok((svc_account("a", false), svc_quota(40))), 1_000));
    assert!(service.apply_quota_result(cur, "b", Ok((svc_account("b", false), svc_quota(60))), 1_000));
    service.finish_success(cur, Some("b"));
    let snap = service.refresh_snapshot();
    assert_eq!(snap.phase, RefreshPhase::Succeeded);
    assert_eq!(snap.accounts[1].quota_state, QuotaLoadState::Stale);
    assert!(!snap.accounts[0].recommended);
    assert!(snap.accounts[2].recommended);
    let g = service.start_refresh_all();
    assert!(service.cancel_refresh(g));
    assert!(!service.cancel_refresh(g));
    assert_eq!(service.refresh_snapshot().phase, RefreshPhase::Cancelled);
    service.finish_with_error(g, OperationErrorCode::Internal);
    assert_eq!(service.refresh_snapshot().phase, RefreshPhase::Cancelled);
}

#[test]
fn cached_quota_is_shown_and_recommended_on_install() {
    let mut service = HangarService::new();
    let file = AccountsFile { accounts: vec![svc_account("a", false)], current_account_id: Some("a".into()) };
    let cache = vec![("a".to_string(), Entry { fetched_at: 1_000, quota: svc_quota(55) })];
    let g = service.start_refresh_due();
    assert!(service.install_accounts(g, &file, &cache, 1_100));
    let snap = service.refresh_snapshot();
    assert_eq!(snap.accounts[0].quota.as_ref().unwrap().weekly_remaining, Some(55));
    assert!(snap.accounts[0].quota_is_fresh);
    assert!(snap.accounts[0].recommended);
    assert!(!service.should_fetch(Some(&cache[0].1), "a", 1_100, false));
    assert!(service.should_fetch(Some(&cache[0].1), "a", 1_100, true));
    service.record_attempt("a", 5_000);
    assert!(service.recently_attempted("a", 5_100));
    assert!(!service.should_fetch(None, "a", 5_100, false));
    assert!(service.should_fetch(None, "a", 5_100 + 1_800, false));
}

#[test]
fn failed_fetch_keeps_old_quota_and_switches_wait_for_refresh() {
    let mut service = HangarService::new();
    let file = AccountsFile { accounts: vec![svc_account("a", false)], current_account_id: Some("a".into()) };
    let cache = vec![("a".to_string(), Entry { fetched_at: 1, quota: svc_quota(55) })];
    let g = service.start_refresh_due();
    assert!(service.start_switch().is_err());
    assert!(service.install_accounts(g, &file, &cache, 10_000));
    assert!(service.apply_quota_result(g, "a", Err("offline".into()), 10_000));
    service.finish_success(g, None);
    let snap = service.refresh_snapshot();
    assert_eq!(snap.accounts[0].quota.as_ref().unwrap().weekly_remaining, Some(55));
    assert_eq!(snap.accounts[0].quota_state, QuotaLoadState::Failed);
    assert!(!snap.accounts[0].quota_is_fresh);
    assert!(!snap.accounts[0].recommended);
    let s = service.start_switch().unwrap();
    assert!(service.start_switch().is_err());
    assert!(service.begin_switch(s));
    service.close();
    assert!(service.ensure_open().is_err());
}

#[test]
fn doctor_reports_a_broken_library_and_a_healthy_one() {
    let broken = DoctorFacts {
        accounts_path: "/h/.hangar/accounts.json".into(),
        accounts: Err("bad json".into()),
        expiry_offsets: vec![],
        backup_exists: false,
        file_mode: None,
        dir_mode: None,
        auth_json: None,
        config_toml: None,
        lock_age: None,
        last_check: None,
        now: 0,
    };
    let (lines, bad) = doctor_lines(&broken, "1.0");
    assert_eq!(lines, vec!["✗ 账号库损坏且 .bak 无法恢复：bad json".to_string()]);
    assert_eq!(bad, 1);

    let mut stale = fake_account("s", "s@example.com", true);
    stale.account_id = Some("x".into());
    let facts = DoctorFacts {
        accounts_path: "/h/a.json".into(),
        accounts: Ok(AccountsFile { accounts: vec![stale], current_account_id: Some("gone".into()) }),
        expiry_offsets: vec![0],
        backup_exists: true,
        file_mode: Some(Some(0o644)),
        dir_mode: Some(Some(0o700)),
        auth_json: None,
        config_toml: Some("# model_provider = x\nmodel_provider = \"custom\"\n".into()),
        lock_age: Some(500),
        last_check: None,
        now: 0,
    };
    let (lines, bad) = doctor_lines(&facts, " 2.0 ");
    assert_eq!(bad, 2);
    assert_eq!(lines[0], "✅ 账号库可解析：1 个账号（/h/a.json）");
    assert_eq!(lines[1], "✗ 当前账号指向不存在的 id");
    assert_eq!(lines[2], "✅ 存在 .bak 备份");
    assert_eq!(lines[3], "⚠ accounts.json 权限 644（建议 600）");
    assert_eq!(lines[4], "✅ 账号库目录权限 700");
    assert_eq!(lines[5], "✗ s@example.com：已失效，用「复活」重新登录");
    assert_eq!(lines[6], "⚠ 官方 auth.json 不存在（尚未登录/切换）");
    assert_eq!(lines[7], "⚠ config.toml 含自定义 provider 路由，OAuth 切换时将被清理");
    assert_eq!(lines[8], "⚠ 发现超期残留锁（下次写库时自动清理）");
    assert_eq!(lines[9], "⚠ 发现 2 项需处理");
    assert_eq!(lines[10], "✅ 版本 hangar 2.0");
    assert_eq!(lines[11], "⚠ 尚未检查更新（启动满 24h 或手动 update 后记录）");
}

#[test]
fn provider_routes_are_removed_but_comments_kept() {
    let cfg = "# model_provider = keep\nmodel_provider = \"x\"\nopenai_base_url=\"y\"\nother = 1\n";
    assert_eq!(
        reset_provider_routes(cfg).as_deref(),
        Some("# model_provider = keep\nother = 1\n")
    );
    assert_eq!(reset_provider_routes("other = 1\n"), None);
}

#[test]
fn process_listings() {
    let ps = "COMMAND ARGS\nbash bash\n/usr/local/bin/codex codex --yolo\n";
    assert!(codex_running_in_ps(ps, "999"));
    assert!(!codex_running_in_ps("hangar hangar codex \nbash bash\n", "999"));
    assert!(!codex_running_in_ps("codex codex\n", "codex"));
    assert!(codex_in_tasklist("Codex.EXE   1234 Console"));
    assert!(!codex_in_tasklist("INFO: No tasks"));
}

#[test]
fn tray_menu_tooltip_and_icon() {
    let items = vec![
        ("a".to_string(), "a@x".to_string(), false),
        ("b".to_string(), "b@x".to_string(), true),
    ];
    let m = tray_menu(&items);
    assert_eq!(m.len(), 5);
    assert!(matches!(&m[1], MenuEntry::Account { id, checked: true, .. } if id == "b"));
    assert!(matches!(m[2], MenuEntry::Separator));
    assert!(matches!(m[4], MenuEntry::Quit));
    assert_eq!(tray_menu(&Vec::new()).len(), 2);
    assert_eq!(tool_tip_text(&items), "b@x");
    assert_eq!(icon_argb32(vec![1, 2, 3, 4, 5, 6, 7, 8, 9]), vec![4, 1, 2, 3, 8, 5, 6, 7, 9]);
}

/// The overview table's text as the terminal UI lays it out: title,
/// headings, and the cells of the visible accounts.
fn overview_text(app: &App, width: u16) -> String {
    let recommended = if app.quota_busy {
        None
    } else {
        recommend(&app.accounts, app.current.as_deref(), &app.quotas)
    };
    let cols = columns(width);
    let mut out = title(app.accounts.len(), &app.filter);
    for c in &cols {
        out.push(' ');
        out.push_str(heading(*c));
    }
    for i in app.filtered() {
        let a = &app.accounts[i];
        let quota = app.quotas.iter().find(|(k, _)| *k == a.id).map(|(_, q)| q);
        let current = app.current.as_deref() == Some(a.id.as_str());
        let is_rec = recommended.as_ref().map(|r| r.account_id.as_str()) == Some(a.id.as_str());
        out.push('\n');
        for c in &cols {
            let (v, _) = cell(a, *c, current, is_rec, quota, &app.quota_pending, &app.quota_errors, &Vec::new(), 0);
            out.push_str(&v);
            out.push(' ');
        }
    }
    out
}

#[test]
fn renders_list_detail_log_panes() {
    let app = fake_app();
    let t = overview_text(&app, 120);
    assert!(t.contains("alice@example.com"), "missing alice");
    assert!(t.contains("bob@example.com"), "missing bob");
    assert!(app.log.iter().any(|l| l.contains("hello log")), "missing log");
    assert!(t.contains("AT"), "missing token health column");
    assert!(t.contains("RT"), "missing refresh availability column");
    assert!(t.contains("unknown"), "missing local token health");
    assert!(!t.contains("0%"), "unloaded quota must not look exhausted");
    assert!(!t.contains("5h"), "inactive 5h quota must not be shown");
}

#[test]
fn stale_badge_and_filter() {
    let mut app = fake_app();
    assert!(overview_text(&app, 120).contains("⚠"));
    app.filter = "bob".to_string();
    app.clamp_selection();
    assert_eq!(app.filtered(), vec![1]);
    let t = overview_text(&app, 120);
    assert!(t.contains("bob@example.com"));
}

#[test]
fn overview_distinguishes_pending_failure_and_unloaded_quota() {
    let mut app = fake_app();
    app.quota_pending.push("id-1".to_string());
    app.quota_errors.push(("id-2".to_string(), "network".to_string()));
    let text = overview_text(&app, 120);
    assert!(text.contains('查'), "pending quota should be visible");
    assert!(text.contains('失'), "failed quota should be visible");
    assert!(!text.contains("0%"), "unknown quota must never render as 0%");
}

#[test]
fn palette_lists_commands_and_filters() {
    let mut app = fake_app();
    app.palette_open = true;
    let all: String = (0..PALETTE_LEN).map(|i| format!(" {}  {}", palette_item(i).label, palette_item(i).hint)).collect();
    assert!(all.contains('添'), "palette missing add");
    assert!(all.contains('删'), "palette missing delete");
    app.palette_input = Some("删除".to_string());
    let vis = app.palette_visible();
    assert_eq!(vis.len(), 1);
    assert_eq!(palette_item(vis[0]).action, Action::Delete);
    app.palette_input = None;
    assert_eq!(app.palette_visible().len(), PALETTE_LEN);
}

#[test]
fn palette_lists_update_command() {
    let mut app = fake_app();
    app.palette_open = true;
    let all: String = (0..PALETTE_LEN).map(|i| format!(" {}  {}", palette_item(i).label, palette_item(i).hint)).collect();
    assert!(all.contains('升'), "palette missing update");
    app.palette_input = Some("升级".to_string());
    let vis = app.palette_visible();
    assert_eq!(vis.len(), 1);
    assert_eq!(palette_item(vis[0]).action, Action::Update);
}

#[test]
fn overview_marks_weekly_recommendation_after_queries_finish() {
    let mut app = fake_app();
    app.accounts[1].stale = false;
    app.quotas.push(("id-1".into(), weekly_quota(40)));
    app.quotas.push(("id-2".into(), weekly_quota(70)));
    let text = overview_text(&app, 120);
    assert!(text.contains('★'), "recommended account badge missing");
    assert!(text.contains("70%"), "weekly remaining missing");
    assert!(!text.contains("5h"), "inactive 5h quota must not be shown");
}
