use hangar_core::classic::{advice, weekly_row};
use hangar_core::quota::{quota_bar, QuotaWindow};
use hangar_core::recommendation::{Reason, Recommendation};
use hangar_core::account::{Account, AccountsFile};
use hangar_core::classic::{
    confirmed, menu_choice, reauth_message, numbered, pick_outcome, prompt_number, stale_numbered, stale_numbers,
    MenuChoice, Pick,
};
use hangar_core::commands::{launch_plan, ErrorKind, Launch, Sub};

fn account(id: &str, stale: bool) -> Account {
    Account {
        id: id.into(),
        email: format!("{id}@example.com"),
        access_token: "at".into(),
        refresh_token: "rt".into(),
        id_token: String::new(),
        expires_at: 0,
        stale,
        account_id: None,
        organization_id: None,
    }
}

fn library() -> AccountsFile {
    AccountsFile {
        accounts: vec![account("a", false), account("b", true), account("c", false)],
        current_account_id: Some("a".into()),
    }
}

#[test]
fn menu_reads_commands_and_numbers() {
    assert_eq!(menu_choice(" quit \n"), MenuChoice::Quit);
    assert_eq!(menu_choice("q"), MenuChoice::Quit);
    assert_eq!(menu_choice("add"), MenuChoice::Add);
    assert_eq!(menu_choice("r"), MenuChoice::Reauth);
    assert_eq!(menu_choice("usage"), MenuChoice::Usage);
    assert_eq!(menu_choice("check"), MenuChoice::Doctor);
    assert_eq!(menu_choice("update"), MenuChoice::Update);
    assert_eq!(menu_choice("d"), MenuChoice::Delete);
    assert_eq!(menu_choice("12\n"), MenuChoice::Pick(12));
    assert_eq!(menu_choice("99999999999999999999999"), MenuChoice::BadNumber);
    assert_eq!(menu_choice("  \n"), MenuChoice::Nothing);
    assert_eq!(menu_choice("+3"), MenuChoice::Unknown);
    assert_eq!(menu_choice("hello"), MenuChoice::Unknown);
}

#[test]
fn numbers_name_accounts_from_one() {
    let file = library();
    assert_eq!(numbered(&file, 1), Ok(0));
    assert_eq!(numbered(&file, 3), Ok(2));
    assert_eq!(numbered(&file, 0), Err("编号 0 不存在".to_string()));
    assert_eq!(numbered(&file, 4), Err("编号 4 不存在".to_string()));
    assert_eq!(prompt_number(" +2\n"), Ok(2));
    assert_eq!(prompt_number("x"), Err("无效编号".to_string()));
}

#[test]
fn picking_guards_stale_and_current_accounts() {
    let file = library();
    assert_eq!(pick_outcome(&file, 0), Pick::InUse);
    assert_eq!(pick_outcome(&file, 1), Pick::Stale);
    assert_eq!(pick_outcome(&file, 2), Pick::Switch);
}

#[test]
fn stale_accounts_keep_their_menu_numbers() {
    let mut file = library();
    file.accounts.push(account("d", true));
    let list = stale_numbers(&file);
    assert_eq!(
        list,
        vec![(2, "b".to_string(), "b@example.com".to_string()), (4, "d".to_string(), "d@example.com".to_string())]
    );
    assert_eq!(stale_numbered(&list, 4), Ok(1));
    assert_eq!(stale_numbered(&list, 1), Err("编号 1 不是待复活账号".to_string()));
    assert!(confirmed(" Y\n"));
    assert!(!confirmed("yes"));
}

#[test]
fn launch_plan_follows_flags_and_terminal() {
    assert_eq!(launch_plan(false, false, false, None, true).unwrap(), Launch::Tui);
    assert_eq!(launch_plan(false, false, false, None, false).unwrap(), Launch::Classic);
    assert_eq!(launch_plan(true, false, false, Some(Sub::Other), false).unwrap(), Launch::Command);
    assert_eq!(launch_plan(false, true, false, None, true).unwrap(), Launch::Update);
    assert_eq!(launch_plan(false, false, true, None, true).unwrap(), Launch::Classic);
    let usage = |r: Result<Launch, hangar_core::commands::CommandError>| {
        let e = r.unwrap_err();
        assert_eq!(e.kind, ErrorKind::Usage);
        e.message
    };
    assert_eq!(usage(launch_plan(false, true, false, Some(Sub::Other), true)), "--check-update 不能与子命令同时使用");
    assert_eq!(usage(launch_plan(false, false, true, Some(Sub::Tui), true)), "--classic 不能与子命令同时使用");
    assert_eq!(usage(launch_plan(true, false, false, Some(Sub::Tui), true)), "tui 不支持 --json");
    assert_eq!(
        usage(launch_plan(false, false, false, Some(Sub::Tui), false)),
        "tui 需要交互式终端；非 TTY 请使用一次性命令或 classic"
    );
    assert_eq!(usage(launch_plan(true, false, false, Some(Sub::Classic), true)), "classic 不支持 --json");
    assert_eq!(usage(launch_plan(true, false, false, None, true)), "--json 必须与一次性子命令一起使用");
}

#[test]
fn relogin_message_keeps_the_account_in_use() {
    assert_eq!(reauth_message("b@example.com", false), "已重新登录: b@example.com（当前账号未改变）");
    assert_eq!(reauth_message("a@example.com", true), "已重新登录: a@example.com（使用中账号的凭据已同步）");
}

#[test]
fn classic_quota_rows_and_advice() {
    let w = QuotaWindow { remaining: Some(7), limit_secs: Some(604_800), reset_in_secs: None, reset_at: None };
    assert_eq!(
        weekly_row(Some(&w), Some("2026-01-01 00:00".into())),
        format!("    周剩余 {} {:>4} · 重置于 2026-01-01 00:00", quota_bar(Some(7)), "7%")
    );
    let u = QuotaWindow { remaining: None, ..w };
    assert_eq!(weekly_row(Some(&u), None), format!("    周剩余 {} {:>4} · 重置于 未知", quota_bar(None), "未知"));
    assert_eq!(weekly_row(None, None), "    周剩余 未知");
    let keep = Recommendation { account_id: "a".into(), email: "a@x".into(), weekly_remaining: 40, reason: Reason::KeepCurrent };
    assert_eq!(advice(&Some(keep)), "建议继续使用 a@x（周剩余 40%）");
    let other = Recommendation { account_id: "b".into(), email: "b@x".into(), weekly_remaining: 70, reason: Reason::HigherWeeklyRemaining };
    assert_eq!(advice(&Some(other)), "建议使用 b@x（周剩余 70%）");
    assert_eq!(advice(&None), "暂无可用建议");
}
