use hangar_core::account::Account;
use hangar_core::quota::{NamedWindow, Quota, QuotaWindow, ResetCredit, ResetCredits};
use hangar_core::screen::{
    access_text, doctor_level, doctor_scroll, doctor_title, gauge_percent, help_text, identity_text,
    level_of, local_text, log_level, log_start, palette_row, palette_title, plan_text, refresh_text,
    reset_credit_facts, reset_credit_text, spinner_frame, status_text, weekly_line, Level, LogLevel,
};
use hangar_core::token_health::{AccessTokenState, TokenHealth};

fn health(access: AccessTokenState, expires_at: Option<i64>) -> TokenHealth {
    TokenHealth { access, expires_at, expiry_source: None, has_refresh_token: true, stale: false }
}

fn window(remaining: Option<i32>) -> QuotaWindow {
    QuotaWindow { remaining, limit_secs: Some(604_800), reset_in_secs: None, reset_at: None }
}

#[test]
fn title_status_shows_work_query_or_ready() {
    assert_eq!(spinner_frame(0), "⠋");
    assert_eq!(spinner_frame(3), "⠙");
    assert_eq!(spinner_frame(19), "⠏");
    assert_eq!(spinner_frame(20), "⠋");
    assert_eq!(status_text(&Some("切换到 a…".to_string()), true, 2), "⠙ 切换到 a…");
    assert_eq!(status_text(&None, true, 4), "⠹ 配额查询中…");
    assert_eq!(status_text(&None, false, 4), "就绪");
}

#[test]
fn details_describe_tokens_plan_and_identity() {
    assert_eq!(access_text(&health(AccessTokenState::Missing, None), 0), "访问令牌缺失");
    assert_eq!(
        access_text(&health(AccessTokenState::Expired, Some(1)), 0),
        "访问令牌已过期（切换前必须刷新）"
    );
    assert_eq!(
        access_text(&health(AccessTokenState::Expiring, Some(1)), 0),
        "访问令牌即将过期（切换前必须刷新）"
    );
    assert_eq!(access_text(&health(AccessTokenState::Unknown, None), 0), "访问令牌有效期未知");
    assert_eq!(
        access_text(&health(AccessTokenState::Fresh, Some(951_782_400)), 8 * 3600),
        "访问令牌至 2000-02-29 08:00"
    );
    assert_eq!(local_text(i64::MAX, 3600), local_text(i64::MAX, 0));
    assert_eq!(refresh_text("  "), "缺失（无法自动续期）");
    assert_eq!(refresh_text("rt"), "有（可自动续期）");
    let a = Account {
        id: "x".into(),
        email: "x@example.com".into(),
        access_token: String::new(),
        refresh_token: String::new(),
        id_token: String::new(),
        expires_at: 0,
        stale: false,
        account_id: Some("acct".into()),
        organization_id: None,
    };
    assert_eq!(identity_text(&a), "身份: acct / -");
    let q = Quota { plan: Some("Pro".into()), windows: vec![], reset_available: None, reset_detail: None };
    assert_eq!(plan_text(Some(&q)), "Pro");
    assert_eq!(plan_text(None), "-");
}

#[test]
fn weekly_line_gauge_and_levels() {
    let w = window(Some(42));
    assert_eq!(weekly_line(Some(&w), Some("2026-01-01 00:00".into())), "周剩余 42% · 重置于 2026-01-01 00:00");
    assert_eq!(weekly_line(Some(&w), None), "周剩余 42% · 重置于 未知");
    assert_eq!(weekly_line(Some(&window(None)), None), "周剩余 未知");
    assert_eq!(weekly_line(None, None), "周剩余 未知");
    assert_eq!(gauge_percent(Some(150)), 100);
    assert_eq!(gauge_percent(Some(-5)), 0);
    assert_eq!(gauge_percent(Some(42)), 42);
    assert_eq!(gauge_percent(None), 0);
    assert_eq!(level_of(None), Level::Unknown);
    assert_eq!(level_of(Some(50)), Level::High);
    assert_eq!(level_of(Some(20)), Level::Middle);
    assert_eq!(level_of(Some(19)), Level::Low);
}

#[test]
fn reset_credits_prefer_the_details() {
    let mut q = Quota {
        plan: None,
        windows: vec![NamedWindow { label: "周".into(), window: window(Some(1)) }],
        reset_available: Some(3),
        reset_detail: None,
    };
    assert_eq!(reset_credit_facts(&q), (Some(3), None));
    q.reset_detail = Some(ResetCredits {
        available: 1,
        total_earned: None,
        credits: vec![
            ResetCredit { title: None, available: false, expires_at: Some(5) },
            ResetCredit { title: None, available: true, expires_at: Some(40) },
        ],
    });
    assert_eq!(reset_credit_facts(&q), (Some(1), Some(40)));
    assert_eq!(reset_credit_text(Some(1), Some("2026-07-17 08:00".into())), "重置卡 1 张 · 最早到期 2026-07-17 08:00");
    assert_eq!(reset_credit_text(None, None), "重置卡 - 张 · 最早到期 -");
}

#[test]
fn log_colours_window_and_help() {
    assert_eq!(log_level("✗ 切换失败"), LogLevel::Error);
    assert_eq!(log_level("查询失败"), LogLevel::Error);
    assert_eq!(log_level("⚠ 已失效"), LogLevel::Warning);
    assert_eq!(log_level("✅ 已切换"), LogLevel::Success);
    assert_eq!(log_level("登录成功"), LogLevel::Success);
    assert_eq!(log_level("就绪"), LogLevel::Plain);
    assert_eq!(log_start(10, 3), 9);
    assert_eq!(log_start(10, 9), 3);
    assert_eq!(log_start(2, 9), 0);
    assert_eq!(log_start(2, 1), 2);
    assert_eq!(help_text(true, true), "  过滤输入中… 回车/ESC 确认");
    assert_eq!(help_text(false, true), "  命令面板：输入过滤 回车执行 ESC 关闭");
    assert!(help_text(false, false).contains("q 退出"));
}

#[test]
fn doctor_overlay_and_palette_scroll_and_titles() {
    assert_eq!(doctor_scroll(12, 10, 5), 2);
    assert_eq!(doctor_scroll(12, 10, 1), 1);
    assert_eq!(doctor_scroll(3, 10, 4), 0);
    assert_eq!(doctor_level("✗ 坏"), LogLevel::Error);
    assert_eq!(doctor_level("⚠ 注意"), LogLevel::Warning);
    assert_eq!(doctor_level("✅ 好"), LogLevel::Success);
    assert_eq!(doctor_title(2, 12), " 自检 (3/12) j/k滚动 ESC关闭 ");
    assert_eq!(doctor_title(0, 0), " 自检 (0/0) j/k滚动 ESC关闭 ");
    assert_eq!(palette_title(&Some("删".into())), " 命令 · 过滤: 删（回车执行 ESC返回） ");
    assert_eq!(palette_title(&None), " 命令（j/k选择 回车执行 /过滤 ESC关闭） ");
    assert_eq!(palette_row(5, 3), 2);
    assert_eq!(palette_row(1, 3), 1);
    assert_eq!(palette_row(4, 0), 0);
}
