use hangar_core::quota_cache::{is_computable, reset_time, window_computable};
use hangar_core::quota::{
    classify_window, fmt_countdown, fmt_ts_local, parse_quota, parse_reset_credits_at,
    needs_forced_retry, quota_bar, reset_at_ts, reset_in_secs, QuotaWindow, ResetCredit, ResetCredits,
};

const SAMPLE: &str = r#"{
    "plan_type": "plus",
    "rate_limit": {
        "primary_window": {"used_percent": 30, "limit_window_seconds": 18000, "reset_after_seconds": 7543},
        "secondary_window": {"used_percent": 80, "limit_window_seconds": 604800, "reset_at": 1790000000}
    }
}"#;

#[test]
fn parse_sample_windows() {
    let q = parse_quota(SAMPLE).expect("parse");
    assert_eq!(q.plan.as_deref(), Some("plus"));
    assert_eq!(q.windows.len(), 2);
    assert_eq!(q.windows[0].label, "会话5h");
    assert_eq!(q.windows[0].window.remaining, Some(70));
    assert_eq!(q.windows[0].window.reset_in_secs, Some(7543));
    assert_eq!(q.windows[1].label, "周");
    assert_eq!(q.windows[1].window.remaining, Some(20));
    assert_eq!(q.windows[1].window.reset_at, Some(1790000000));
}

#[test]
fn weekly_primary_is_not_mislabeled_session() {
    let q = parse_quota(
        r#"{"rate_limit":{"primary_window":{"used_percent":8,"limit_window_seconds":604800,"reset_after_seconds":512000}}}"#,
    )
    .expect("parse");
    assert_eq!(q.windows.len(), 1);
    assert_eq!(q.windows[0].label, "周");
    assert_eq!(q.windows[0].window.remaining, Some(92));
}

#[test]
fn classify_known_variants() {
    assert_eq!(classify_window(Some(18000)), "会话5h");
    assert_eq!(classify_window(Some(614801)), "周");
    assert_eq!(classify_window(Some(1692000)), "月");
    assert_eq!(classify_window(Some(2582100)), "月");
    assert_eq!(classify_window(Some(72000)), "20h窗口");
    assert_eq!(classify_window(None), "窗口");
}

#[test]
fn parse_missing_windows_is_empty() {
    let q = parse_quota(r#"{"plan_type":"team"}"#).expect("parse");
    assert!(q.windows.is_empty());
}

#[test]
fn used_percent_clamped() {
    let q = parse_quota(r#"{"rate_limit":{"primary_window":{"used_percent":150}}}"#).expect("parse");
    assert_eq!(q.windows.len(), 1);
    assert_eq!(q.windows[0].window.remaining, Some(0));
}

#[test]
fn countdown_and_bar() {
    assert_eq!(fmt_countdown(Some(7543)), "2h05m");
    assert_eq!(fmt_countdown(None), "-");
    assert_eq!(quota_bar(Some(70)), "███████░░░");
    assert_eq!(quota_bar(None), "----------");
}

#[test]
fn fmt_ts_local_utc_baseline() {
    let s = fmt_ts_local(0, 0);
    assert_eq!(s.len(), 16);
    assert_eq!(&s[4..5], "-");
    assert_eq!(&s[7..8], "-");
    assert_eq!(&s[10..11], " ");
    assert_eq!(&s[13..14], ":");
    assert_eq!(s, "1970-01-01 00:00");
}

#[test]
fn local_time_applies_the_offset_and_handles_leap_days() {
    assert_eq!(fmt_ts_local(951_782_401, 0), "2000-02-29 00:00");
    assert_eq!(fmt_ts_local(0, 8 * 3600), "1970-01-01 08:00");
    assert_eq!(fmt_ts_local(0, -3600), "1969-12-31 23:00");
    assert_eq!(fmt_ts_local(4_102_444_800, 0), "2100-01-01 00:00");
}

#[test]
fn countdown_units_and_short_windows() {
    assert_eq!(fmt_countdown(Some(0)), "即将重置");
    assert_eq!(fmt_countdown(Some(59)), "59s");
    assert_eq!(fmt_countdown(Some(61)), "1m01s");
    assert_eq!(classify_window(Some(1800)), "30m窗口");
    assert_eq!(classify_window(Some(18_060)), "会话5h");
    assert_eq!(quota_bar(Some(-5)), "░░░░░░░░░░");
    assert_eq!(quota_bar(Some(100)), "██████████");
}

#[test]
fn reset_times_prefer_absolute_then_relative() {
    let w = QuotaWindow { remaining: None, limit_secs: None, reset_in_secs: Some(60), reset_at: None };
    assert_eq!(reset_at_ts(&w, 1000), Some(1060));
    assert_eq!(reset_in_secs(&w, 1000), Some(60));
    let a = QuotaWindow { remaining: None, limit_secs: None, reset_in_secs: None, reset_at: Some(900) };
    assert_eq!(reset_at_ts(&a, 1000), Some(900));
    assert_eq!(reset_in_secs(&a, 1000), Some(0));
}

#[test]
fn reset_credits_parse_statuses_timestamps_and_counts() {
    let body = r#"{"credits":[
        {"status":"ACTIVE","title":" Full reset ","expires_at":"2026-07-17T00:00:00Z"},
        {"state":"redeemed","expires_at":1},
        {"expire_at":100}
    ],"total_earned_count":3}"#;
    let rc = parse_reset_credits_at(body, 1_000).expect("parse");
    assert_eq!(rc.credits.len(), 3);
    assert_eq!(rc.credits[0].title.as_deref(), Some("Full reset"));
    assert_eq!(rc.credits[0].expires_at, Some(1_784_246_400));
    assert!(rc.credits[0].available);
    assert!(!rc.credits[1].available);
    assert!(!rc.credits[2].available);
    assert_eq!(rc.available, 1);
    assert_eq!(rc.total_earned, Some(3));
    assert_eq!(rc.next_expiry(), Some(1_784_246_400));
    assert!(parse_reset_credits_at("nope", 0).is_err());
}

#[test]
fn next_expiry_only_counts_available_credits() {
    let rc = ResetCredits {
        available: 2,
        total_earned: None,
        credits: vec![
            ResetCredit { title: None, available: false, expires_at: Some(10) },
            ResetCredit { title: None, available: true, expires_at: Some(40) },
            ResetCredit { title: None, available: true, expires_at: Some(30) },
            ResetCredit { title: None, available: true, expires_at: None },
        ],
    };
    assert_eq!(rc.next_expiry(), Some(30));
}

#[test]
fn a_shown_date_parses_back_to_its_minute() {
    for ts in [0i64, 951_782_400, 951_868_800, 1_709_164_800, 4_102_444_740, 5_000_000_000] {
        let shown = fmt_ts_local(ts, 0);
        let stamp = format!("{}Z", shown.replacen(' ', "T", 1));
        let body = format!(r#"{{"credits":[{{"status":"ACTIVE","expires_at":"{stamp}"}}]}}"#);
        let rc = parse_reset_credits_at(&body, 0).expect("parse");
        assert_eq!(rc.credits[0].expires_at, Some(ts - ts % 60), "{shown}");
    }
}

#[test]
fn only_a_rejected_token_is_refreshed_and_retried() {
    let rejected: Result<hangar_core::quota::Quota, String> = Err("HTTP 401 Unauthorized".to_string());
    assert!(needs_forced_retry(&rejected));
    let offline: Result<hangar_core::quota::Quota, String> = Err("network down".to_string());
    assert!(!needs_forced_retry(&offline));
    let ok = parse_quota(SAMPLE);
    assert!(!needs_forced_retry(&ok));
}

#[test]
fn reset_times_are_computed_only_without_overflow() {
    let w = QuotaWindow { remaining: None, limit_secs: None, reset_in_secs: Some(i64::MAX), reset_at: None };
    assert!(!window_computable(&w, 1));
    assert_eq!(reset_time(&w, 1), None);
    assert_eq!(reset_time(&w, 0), Some(i64::MAX));
    let a = QuotaWindow { remaining: None, limit_secs: None, reset_in_secs: Some(i64::MAX), reset_at: Some(5) };
    assert_eq!(reset_time(&a, 1), Some(5));
    let q = parse_quota(SAMPLE).unwrap();
    assert!(is_computable(&q, 1_000));
}
