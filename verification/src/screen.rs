//! What the full-screen terminal UI shows around the account table: the
//! status in its title, the selected account's details, the weekly quota
//! line and the reset credits, the log's colours and window, the help line,
//! and the doctor overlay's scrolling. Drawing is the caller's.

use crate::account::{opt_view, Account};
use crate::quota::{local_time_text, Quota, QuotaWindow};
use crate::text;
use crate::token_health::{AccessTokenState, TokenHealth};
use vstd::prelude::*;

verus! {

/// The spinner's frame `i` (0..10).
pub open spec fn spinner_spec(i: int) -> Seq<char> {
    if i == 0 {
        "⠋"@
    } else if i == 1 {
        "⠙"@
    } else if i == 2 {
        "⠹"@
    } else if i == 3 {
        "⠸"@
    } else if i == 4 {
        "⠼"@
    } else if i == 5 {
        "⠴"@
    } else if i == 6 {
        "⠦"@
    } else if i == 7 {
        "⠧"@
    } else if i == 8 {
        "⠇"@
    } else {
        "⠏"@
    }
}

/// The spinner frame at a tick: it moves every second tick.
pub fn spinner_frame(tick: u64) -> (r: &'static str)
    ensures
        r@ == spinner_spec(((tick / 2) % 10) as int),
{
    let i = (tick / 2) % 10;
    if i == 0 {
        "⠋"
    } else if i == 1 {
        "⠙"
    } else if i == 2 {
        "⠹"
    } else if i == 3 {
        "⠸"
    } else if i == 4 {
        "⠼"
    } else if i == 5 {
        "⠴"
    } else if i == 6 {
        "⠦"
    } else if i == 7 {
        "⠧"
    } else if i == 8 {
        "⠇"
    } else {
        "⠏"
    }
}

/// The status at the right of the title: the work that runs, the quota
/// query, or ready.
pub open spec fn status_spec(busy: Option<Seq<char>>, quota_busy: bool, tick: u64) -> Seq<char> {
    let frame = spinner_spec(((tick / 2) % 10) as int);
    match busy {
        Some(b) => frame + " "@ + b,
        None => if quota_busy {
            frame + " 配额查询中…"@
        } else {
            "就绪"@
        },
    }
}

pub fn status_text(busy: &Option<String>, quota_busy: bool, tick: u64) -> (r: String)
    ensures
        r@ == status_spec(opt_view(*busy), quota_busy, tick),
{
    let frame = spinner_frame(tick);
    match busy {
        Some(b) => {
            let mut s = text::cat(frame, " ");
            text::push_str(&mut s, b.as_str());
            s
        },
        None => if quota_busy {
            text::cat(frame, " 配额查询中…")
        } else {
            text::to_owned("就绪")
        },
    }
}

/// A UTC time in the zone `offset` seconds east of UTC, `YYYY-MM-DD HH:MM`;
/// in UTC when the shifted time would not fit.
pub open spec fn local_spec(ts: i64, offset: i64) -> Seq<char> {
    if i64::MIN <= ts + offset <= i64::MAX {
        local_time_text(ts + offset)
    } else {
        local_time_text(ts as int)
    }
}

pub fn local_text(ts: i64, offset: i64) -> (r: String)
    ensures
        r@ == local_spec(ts, offset),
{
    match ts.checked_add(offset) {
        Some(_) => crate::quota::fmt_ts_local(ts, offset),
        None => crate::quota::fmt_ts_local(ts, 0),
    }
}

/// The access token line of the details: what its state means for a
/// switch, or until when it is good (shown in the zone `offset` east of
/// UTC).
pub open spec fn access_spec(access: AccessTokenState, expires_at: Option<i64>, offset: i64) -> Seq<char> {
    match access {
        AccessTokenState::Missing => "访问令牌缺失"@,
        AccessTokenState::Expired => "访问令牌已过期（切换前必须刷新）"@,
        AccessTokenState::Expiring => "访问令牌即将过期（切换前必须刷新）"@,
        AccessTokenState::Fresh => "访问令牌至 "@ + local_spec(
            match expires_at {
                Some(t) => t,
                None => 0,
            },
            offset,
        ),
        AccessTokenState::Unknown => "访问令牌有效期未知"@,
    }
}

pub fn access_text(health: &TokenHealth, offset: i64) -> (r: String)
    ensures
        r@ == access_spec(health.access, health.expires_at, offset),
{
    match health.access {
        AccessTokenState::Missing => text::to_owned("访问令牌缺失"),
        AccessTokenState::Expired => text::to_owned("访问令牌已过期（切换前必须刷新）"),
        AccessTokenState::Expiring => text::to_owned("访问令牌即将过期（切换前必须刷新）"),
        AccessTokenState::Fresh => {
            let t = match health.expires_at {
                Some(t) => t,
                None => 0,
            };
            text::cat("访问令牌至 ", local_text(t, offset).as_str())
        },
        AccessTokenState::Unknown => text::to_owned("访问令牌有效期未知"),
    }
}

/// Whether the account can be renewed without a login.
pub open spec fn refresh_spec(refresh_token: Seq<char>) -> Seq<char> {
    if text::trim_spec(refresh_token).len() == 0 {
        "缺失（无法自动续期）"@
    } else {
        "有（可自动续期）"@
    }
}

pub fn refresh_text(refresh_token: &str) -> (r: &'static str)
    ensures
        r@ == refresh_spec(refresh_token@),
{
    if text::trim(refresh_token).as_str().is_empty() {
        "缺失（无法自动续期）"
    } else {
        "有（可自动续期）"
    }
}

/// An optional identifier, or `-`.
pub open spec fn or_dash(s: Option<Seq<char>>) -> Seq<char> {
    match s {
        Some(x) => x,
        None => "-"@,
    }
}

/// The identity line of the details: account and organisation ids.
pub open spec fn identity_spec(a: Account) -> Seq<char> {
    "身份: "@ + or_dash(opt_view(a.account_id)) + " / "@ + or_dash(opt_view(a.organization_id))
}

fn or_dash_exec(s: &Option<String>) -> (r: String)
    ensures
        r@ == or_dash(opt_view(*s)),
{
    match s {
        Some(x) => x.clone(),
        None => text::to_owned("-"),
    }
}

pub fn identity_text(a: &Account) -> (r: String)
    ensures
        r@ == identity_spec(*a),
{
    let mut s = text::cat("身份: ", or_dash_exec(&a.account_id).as_str());
    text::push_str(&mut s, " / ");
    text::push_str(&mut s, or_dash_exec(&a.organization_id).as_str());
    s
}

/// The plan line of the details: the plan of the quota on show, or `-`.
pub open spec fn plan_spec(q: Option<Quota>) -> Seq<char> {
    match q {
        Some(quota) => or_dash(opt_view(quota.plan)),
        None => "-"@,
    }
}

pub fn plan_text(q: Option<&Quota>) -> (r: String)
    ensures
        r@ == plan_spec(
            match q {
                Some(x) => Some(*x),
                None => None,
            },
        ),
{
    match q {
        Some(quota) => or_dash_exec(&quota.plan),
        None => text::to_owned("-"),
    }
}

/// The weekly quota line: the remaining share and, when known, the reset
/// time as the caller shows it; unknown without a weekly share.
pub open spec fn weekly_line_spec(w: Option<QuotaWindow>, reset_shown: Option<Seq<char>>) -> Seq<char> {
    match w {
        Some(win) => match win.remaining {
            Some(p) => "周剩余 "@ + text::dec(p as int) + "% · 重置于 "@ + match reset_shown {
                Some(r) => r,
                None => "未知"@,
            },
            None => "周剩余 未知"@,
        },
        None => "周剩余 未知"@,
    }
}

pub fn weekly_line(w: Option<&QuotaWindow>, reset_shown: Option<String>) -> (r: String)
    ensures
        r@ == weekly_line_spec(
            match w {
                Some(x) => Some(*x),
                None => None,
            },
            opt_view(reset_shown),
        ),
{
    match w {
        Some(win) => match win.remaining {
            Some(p) => {
                let mut s = text::cat("周剩余 ", text::fmt_i64(p as i64).as_str());
                text::push_str(&mut s, "% · 重置于 ");
                match reset_shown {
                    Some(r) => text::push_str(&mut s, r.as_str()),
                    None => text::push_str(&mut s, "未知"),
                }
                s
            },
            None => text::to_owned("周剩余 未知"),
        },
        None => text::to_owned("周剩余 未知"),
    }
}

/// How full a quota gauge is drawn, in percent: the remaining share held
/// to 0..=100, empty when unknown.
pub open spec fn gauge_spec(remaining: Option<i32>) -> int {
    match remaining {
        Some(p) => if p < 0 {
            0
        } else if p > 100 {
            100
        } else {
            p as int
        },
        None => 0,
    }
}

pub fn gauge_percent(remaining: Option<i32>) -> (r: u8)
    ensures
        r as int == gauge_spec(remaining),
{
    match remaining {
        Some(p) => if p < 0 {
            0
        } else if p > 100 {
            100
        } else {
            p as u8
        },
        None => 0,
    }
}

/// The colour class of a remaining share.
#[derive(Debug, Clone, Copy, PartialEq, Eq, Structural)]
pub enum Level {
    /// Unknown.
    Unknown,
    /// At least 50%.
    High,
    /// At least 20%.
    Middle,
    /// Below 20%.
    Low,
}

pub open spec fn level_spec(remaining: Option<i32>) -> Level {
    match remaining {
        None => Level::Unknown,
        Some(p) => if p >= 50 {
            Level::High
        } else if p >= 20 {
            Level::Middle
        } else {
            Level::Low
        },
    }
}

pub fn level_of(remaining: Option<i32>) -> (r: Level)
    ensures
        r == level_spec(remaining),
{
    match remaining {
        None => Level::Unknown,
        Some(p) => if p >= 50 {
            Level::High
        } else if p >= 20 {
            Level::Middle
        } else {
            Level::Low
        },
    }
}

/// The reset credits of a quota: the count and the earliest expiry of an
/// available credit from the details when they were fetched, else the
/// usage response's count alone.
pub open spec fn reset_facts_spec(q: Quota) -> (Option<i64>, Option<i64>) {
    match q.reset_detail {
        Some(d) => (Some(d.available), crate::quota::next_expiry_spec(d.credits@)),
        None => (q.reset_available, None),
    }
}

pub fn reset_credit_facts(q: &Quota) -> (r: (Option<i64>, Option<i64>))
    ensures
        r == reset_facts_spec(*q),
{
    match &q.reset_detail {
        Some(d) => (Some(d.available), d.next_expiry()),
        None => (q.reset_available, None),
    }
}

/// The reset credit line: the count and the earliest expiry as the caller
/// shows it, `-` for what is unknown.
pub open spec fn reset_line_spec(count: Option<i64>, expiry_shown: Option<Seq<char>>) -> Seq<char> {
    "重置卡 "@ + match count {
        Some(c) => text::dec(c as int),
        None => "-"@,
    } + " 张 · 最早到期 "@ + or_dash(expiry_shown)
}

pub fn reset_credit_text(count: Option<i64>, expiry_shown: Option<String>) -> (r: String)
    ensures
        r@ == reset_line_spec(count, opt_view(expiry_shown)),
{
    let mut s = text::to_owned("重置卡 ");
    match count {
        Some(c) => text::push_str(&mut s, text::fmt_i64(c).as_str()),
        None => text::push_str(&mut s, "-"),
    }
    text::push_str(&mut s, " 张 · 最早到期 ");
    text::push_str(&mut s, or_dash_exec(&expiry_shown).as_str());
    s
}

/// The colour class of a log line.
#[derive(Debug, Clone, Copy, PartialEq, Eq, Structural)]
pub enum LogLevel {
    Error,
    Warning,
    Success,
    Plain,
}

/// A log line is an error when it holds `✗` or `失败`, a warning with `⚠`,
/// a success with `✅` or `成功`.
pub open spec fn log_level_spec(line: Seq<char>) -> LogLevel {
    if text::has_substring(line, "✗"@) || text::has_substring(line, "失败"@) {
        LogLevel::Error
    } else if text::has_substring(line, "⚠"@) {
        LogLevel::Warning
    } else if text::has_substring(line, "✅"@) || text::has_substring(line, "成功"@) {
        LogLevel::Success
    } else {
        LogLevel::Plain
    }
}

pub fn log_level(line: &str) -> (r: LogLevel)
    ensures
        r == log_level_spec(line@),
{
    if text::contains(line, "✗") || text::contains(line, "失败") {
        LogLevel::Error
    } else if text::contains(line, "⚠") {
        LogLevel::Warning
    } else if text::contains(line, "✅") || text::contains(line, "成功") {
        LogLevel::Success
    } else {
        LogLevel::Plain
    }
}

/// The first log line shown in a pane `height` rows high (two rows are its
/// border): the newest lines that fit.
pub open spec fn log_start_spec(len: usize, height: usize) -> int {
    let rows = if height >= 2 {
        height - 2
    } else {
        0
    };
    if len >= rows {
        len - rows
    } else {
        0
    }
}

pub fn log_start(len: usize, height: usize) -> (r: usize)
    ensures
        r as int == log_start_spec(len, height),
        r <= len,
{
    len.saturating_sub(height.saturating_sub(2))
}

/// The help line for the mode the UI is in.
pub open spec fn help_spec(filtering: bool, palette_open: bool) -> Seq<char> {
    if filtering {
        "  过滤输入中… 回车/ESC 确认"@
    } else if palette_open {
        "  命令面板：输入过滤 回车执行 ESC 关闭"@
    } else {
        "  j/k 移动  / 过滤  回车切换  : 命令  l 展开日志  q 退出"@
    }
}

pub fn help_text(filtering: bool, palette_open: bool) -> (r: &'static str)
    ensures
        r@ == help_spec(filtering, palette_open),
{
    if filtering {
        "  过滤输入中… 回车/ESC 确认"
    } else if palette_open {
        "  命令面板：输入过滤 回车执行 ESC 关闭"
    } else {
        "  j/k 移动  / 过滤  回车切换  : 命令  l 展开日志  q 退出"
    }
}

/// The first doctor line shown: the scroll position, held so that the
/// last page stays full.
pub open spec fn doctor_scroll_spec(total: usize, view_rows: usize, scroll: usize) -> int {
    let max = if total >= view_rows {
        total - view_rows
    } else {
        0
    };
    if scroll <= max {
        scroll as int
    } else {
        max
    }
}

pub fn doctor_scroll(total: usize, view_rows: usize, scroll: usize) -> (r: usize)
    ensures
        r as int == doctor_scroll_spec(total, view_rows, scroll),
        r <= total,
{
    let max = total.saturating_sub(view_rows);
    if scroll <= max {
        scroll
    } else {
        max
    }
}

/// The colour class of a doctor line: by its leading mark.
pub open spec fn doctor_level_spec(line: Seq<char>) -> LogLevel {
    if text::has_prefix(line, "✗"@) {
        LogLevel::Error
    } else if text::has_prefix(line, "⚠"@) {
        LogLevel::Warning
    } else {
        LogLevel::Success
    }
}

pub fn doctor_level(line: &str) -> (r: LogLevel)
    ensures
        r == doctor_level_spec(line@),
{
    if text::starts_with(line, "✗") {
        LogLevel::Error
    } else if text::starts_with(line, "⚠") {
        LogLevel::Warning
    } else {
        LogLevel::Success
    }
}

/// The doctor overlay's title: the first line shown (counted from one, or
/// nought when there is none) and the number of lines.
pub open spec fn doctor_title_spec(shown_from: usize, total: usize) -> Seq<char> {
    " 自检 ("@ + text::dec(shown_from + (if total >= 1 {
        1int
    } else {
        0
    })) + "/"@ + text::dec(total as int) + ") j/k滚动 ESC关闭 "@
}

pub fn doctor_title(shown_from: usize, total: usize) -> (r: String)
    requires
        shown_from <= total < usize::MAX,
    ensures
        r@ == doctor_title_spec(shown_from, total),
{
    let first: u64 = if total >= 1 {
        shown_from as u64 + 1
    } else {
        shown_from as u64
    };
    let mut s = text::cat(" 自检 (", text::fmt_u64(first).as_str());
    text::push_str(&mut s, "/");
    text::push_str(&mut s, text::fmt_u64(total as u64).as_str());
    text::push_str(&mut s, ") j/k滚动 ESC关闭 ");
    s
}

/// The palette's title: the filter being typed, or how to choose.
pub open spec fn palette_title_spec(input: Option<Seq<char>>) -> Seq<char> {
    match input {
        Some(q) => " 命令 · 过滤: "@ + q + "（回车执行 ESC返回） "@,
        None => " 命令（j/k选择 回车执行 /过滤 ESC关闭） "@,
    }
}

pub fn palette_title(input: &Option<String>) -> (r: String)
    ensures
        r@ == palette_title_spec(opt_view(*input)),
{
    match input {
        Some(q) => {
            let mut s = text::cat(" 命令 · 过滤: ", q.as_str());
            text::push_str(&mut s, "（回车执行 ESC返回） ");
            s
        },
        None => text::to_owned(" 命令（j/k选择 回车执行 /过滤 ESC关闭） "),
    }
}

/// The highlighted palette row among `shown` rows: the selection, held to
/// the last row.
pub open spec fn palette_row_spec(sel: usize, shown: usize) -> int {
    let last = if shown >= 1 {
        shown - 1
    } else {
        0
    };
    if sel <= last {
        sel as int
    } else {
        last
    }
}

pub fn palette_row(sel: usize, shown: usize) -> (r: usize)
    ensures
        r as int == palette_row_spec(sel, shown),
{
    let last = shown.saturating_sub(1);
    if sel <= last {
        sel
    } else {
        last
    }
}

} // verus!
