//! Codex quota: the `wham/usage` response (windows classified by their
//! length, never by their position), reset credits, and the formatting of
//! countdowns, bars and local times. The HTTP requests are the caller's.

use crate::account::opt_view;
use crate::calendar::{self, civil_from_days, tdiv};
use crate::json::{self, JsonDoc, JsonNum};
use crate::jwt;
use crate::text;
use vstd::prelude::*;
use vstd::string::StringSliceAdditionalSpecFns;

verus! {

pub const USAGE_URL: &'static str = "https://chatgpt.com/backend-api/wham/usage";

pub const RESET_CREDITS_URL: &'static str = "https://chatgpt.com/backend-api/wham/rate-limit-reset-credits";

/// One usage window.
#[derive(Debug, Clone, Copy)]
pub struct QuotaWindow {
    /// Remaining percentage (0-100), when known.
    pub remaining: Option<i32>,
    /// The window's length in seconds.
    pub limit_secs: Option<i64>,
    /// Seconds until the window resets, when known.
    pub reset_in_secs: Option<i64>,
    /// The reset time (UTC seconds), when known.
    pub reset_at: Option<i64>,
}

/// A window with its display label.
#[derive(Debug, Clone)]
pub struct NamedWindow {
    pub label: String,
    pub window: QuotaWindow,
}

/// An account's quota.
#[derive(Debug, Clone)]
pub struct Quota {
    pub plan: Option<String>,
    /// In the order the server sent them (primary, secondary); missing ones
    /// are skipped.
    pub windows: Vec<NamedWindow>,
    /// The number of reset credits the usage response reports.
    pub reset_available: Option<i64>,
    /// Reset credit details, when fetched.
    pub reset_detail: Option<ResetCredits>,
}

/// One reset credit.
#[derive(Debug, Clone)]
pub struct ResetCredit {
    pub title: Option<String>,
    pub available: bool,
    pub expires_at: Option<i64>,
}

/// The reset credits of an account.
#[derive(Debug, Clone)]
pub struct ResetCredits {
    pub available: i64,
    pub total_earned: Option<i64>,
    pub credits: Vec<ResetCredit>,
}

impl Default for QuotaWindow {
    fn default() -> (r: QuotaWindow)
        ensures
            r.remaining is None && r.limit_secs is None && r.reset_in_secs is None
                && r.reset_at is None,
    {
        QuotaWindow { remaining: None, limit_secs: None, reset_in_secs: None, reset_at: None }
    }
}

impl Default for Quota {
    fn default() -> (r: Quota)
        ensures
            r.plan is None && r.windows@.len() == 0 && r.reset_available is None
                && r.reset_detail is None,
    {
        Quota { plan: None, windows: Vec::new(), reset_available: None, reset_detail: None }
    }
}

/// The label of a window by its length: a 5-hour session (18000 s, within
/// a minute), a week (500000..700000 s), a month (over 1000000 s), else the
/// length in hours or minutes; unknown length is a plain window.
pub open spec fn window_label(limit_secs: Option<i64>) -> Seq<char> {
    match limit_secs {
        Some(s) => if -60 <= s - 18000 <= 60 {
            "会话5h"@
        } else if 500_000 <= s < 700_000 {
            "周"@
        } else if s > 1_000_000 {
            "月"@
        } else if s >= 3600 {
            text::dec(s / 3600) + "h窗口"@
        } else {
            text::dec(tdiv(s + 59, 60)) + "m窗口"@
        },
        None => "窗口"@,
    }
}

/// Labels a window by its length (positions are not trusted: some
/// accounts report the week as the primary window).
pub fn classify_window(limit_secs: Option<i64>) -> (r: String)
    requires
        limit_secs matches Some(s) ==> s > i64::MIN + 18_000,
    ensures
        r@ == window_label(limit_secs),
{
    match limit_secs {
        Some(s) => {
            let diff = s - 18_000;
            if -60 <= diff && diff <= 60 {
                text::to_owned("会话5h")
            } else if 500_000 <= s && s < 700_000 {
                text::to_owned("周")
            } else if s > 1_000_000 {
                text::to_owned("月")
            } else if s >= 3600 {
                text::cat(text::fmt_i64(s / 3600).as_str(), "h窗口")
            } else {
                text::cat(text::fmt_i64((s + 59) / 60).as_str(), "m窗口")
            }
        },
        None => text::to_owned("窗口"),
    }
}

/// The optional integer member `key` of a document.
pub open spec fn int_of(w: JsonDoc, key: Seq<char>) -> Option<i64> {
    json::i64_field(Some(w), key)
}

/// `used_percent` as a remaining percentage, clamped to 0..=100.
pub open spec fn remaining_of(used: Option<i64>) -> Option<i32> {
    match used {
        Some(u) => Some(
            (100 - (if u < 0 {
                0
            } else if u > 100 {
                100
            } else {
                u as int
            })) as i32,
        ),
        None => None,
    }
}

/// Whether `w` describes the window `nw`: a window needs a
/// `used_percent` or a `limit_window_seconds`.
pub open spec fn window_of(w: JsonDoc, nw: NamedWindow) -> bool {
    let limit = match int_of(w, "limit_window_seconds"@) {
        Some(s) => if s > 0 {
            Some(s)
        } else {
            None
        },
        None => None,
    };
    &&& nw.window.remaining == remaining_of(int_of(w, "used_percent"@))
    &&& nw.window.limit_secs == limit
    &&& nw.window.reset_in_secs == match int_of(w, "reset_after_seconds"@) {
        Some(s) => if s >= 0 {
            Some(s)
        } else {
            None
        },
        None => None,
    }
    &&& nw.window.reset_at == int_of(w, "reset_at"@)
    &&& nw.label@ == window_label(limit)
}

/// Whether a document names a window at all.
pub open spec fn is_window(w: JsonDoc) -> bool {
    int_of(w, "used_percent"@) is Some || int_of(w, "limit_window_seconds"@) is Some
}

fn int_member(v: &serde_json::Value, key: &str) -> (r: Option<i64>)
    ensures
        r == int_of(json::json_view(*v), key@),
{
    match json::get(v, key) {
        Some(x) => json::as_i64(x),
        None => None,
    }
}

/// Reads one window; `None` when it names neither usage nor length.
pub fn parse_window(w: &serde_json::Value) -> (r: Option<NamedWindow>)
    ensures
        match r {
            Some(nw) => is_window(json::json_view(*w)) && window_of(json::json_view(*w), nw),
            None => !is_window(json::json_view(*w)),
        },
{
    let used = int_member(w, "used_percent");
    let limit_raw = int_member(w, "limit_window_seconds");
    if used.is_none() && limit_raw.is_none() {
        return None;
    }
    let remaining = match used {
        Some(u) => {
            let c: i64 = if u < 0 {
                0
            } else if u > 100 {
                100
            } else {
                u
            };
            Some(100 - c as i32)
        },
        None => None,
    };
    let limit_secs = match limit_raw {
        Some(s) => if s > 0 {
            Some(s)
        } else {
            None
        },
        None => None,
    };
    let reset_in_secs = match int_member(w, "reset_after_seconds") {
        Some(s) => if s >= 0 {
            Some(s)
        } else {
            None
        },
        None => None,
    };
    let reset_at = int_member(w, "reset_at");
    let label = classify_window(limit_secs);
    Some(
        NamedWindow {
            label,
            window: QuotaWindow { remaining, limit_secs, reset_in_secs, reset_at },
        },
    )
}

/// The display name of a plan: `pro` (any case) is shown as "Pro 20x".
pub open spec fn plan_name(raw: Seq<char>) -> Seq<char> {
    if text::ascii_lower_seq(raw) == "pro"@ {
        "Pro 20x"@
    } else {
        raw
    }
}

pub fn plan_display(raw: String) -> (r: String)
    ensures
        r@ == plan_name(raw@),
{
    let lower = text::to_ascii_lowercase(raw.as_str());
    if !text::str_eq(lower.as_str(), "pro") {
        return raw;
    }
    text::to_owned("Pro 20x")
}

/// The windows of a usage document: primary then secondary, each kept when
/// it names a window.
pub open spec fn windows_ok(rate: Option<JsonDoc>, ws: Seq<NamedWindow>) -> bool {
    let p = json::field_of(rate, "primary_window"@);
    let s = json::field_of(rate, "secondary_window"@);
    let pk = p matches Some(d) && is_window(d);
    let sk = s matches Some(d) && is_window(d);
    &&& ws.len() == (if pk {
        1int
    } else {
        0
    }) + (if sk {
        1int
    } else {
        0
    })
    &&& pk ==> window_of(p.unwrap(), ws[0])
    &&& sk ==> window_of(s.unwrap(), ws[if pk {
        1int
    } else {
        0
    }])
}

/// What a usage response says, read into `q`.
pub open spec fn quota_of(v: JsonDoc, q: Quota) -> bool {
    let rate = json::field(v, "rate_limit"@);
    let credits = match json::field(v, "rate_limit_reset_credits"@) {
        Some(c) => Some(c),
        None => json::field_of(rate, "rate_limit_reset_credits"@),
    };
    &&& opt_view(q.plan) == match json::str_field(Some(v), "plan_type"@) {
        Some(p) => if text::trim_spec(p).len() != 0 {
            Some(plan_name(text::trim_spec(p)))
        } else {
            None
        },
        None => None,
    }
    &&& windows_ok(rate, q.windows@)
    &&& q.reset_available == json::i64_field(credits, "available_count"@)
    &&& q.reset_detail is None
}

/// Parses a usage response; an error carries serde's message.
pub fn parse_quota(body: &str) -> (r: Result<Quota, String>)
    ensures
        match r {
            Ok(q) => json::json_parse_text(body@) matches Some(v) && quota_of(v, q),
            Err(m) => json::json_parse_text(body@) is None && m@ == "解析配额响应失败: "@
                + json::json_error_text(body@),
        },
{
    let v = match json::parse_json(body) {
        Ok(v) => v,
        Err(e) => return Err(text::cat("解析配额响应失败: ", e.as_str())),
    };
    let rate = json::get(&v, "rate_limit");
    let mut windows: Vec<NamedWindow> = Vec::new();
    let mut pk = false;
    match rate {
        Some(r) => match json::get(r, "primary_window") {
            Some(w) => match parse_window(w) {
                Some(nw) => {
                    windows.push(nw);
                    pk = true;
                },
                None => {},
            },
            None => {},
        },
        None => {},
    }
    match rate {
        Some(r) => match json::get(r, "secondary_window") {
            Some(w) => match parse_window(w) {
                Some(nw) => {
                    windows.push(nw);
                },
                None => {},
            },
            None => {},
        },
        None => {},
    }
    let credits = match json::get(&v, "rate_limit_reset_credits") {
        Some(c) => Some(c),
        None => match rate {
            Some(r) => json::get(r, "rate_limit_reset_credits"),
            None => None,
        },
    };
    let reset_available = match credits {
        Some(c) => int_member(c, "available_count"),
        None => None,
    };
    let plan = match json::get(&v, "plan_type") {
        Some(p) => match json::as_str(p) {
            Some(s) => {
                let t = text::trim(s);
                if t.as_str().is_empty() {
                    None
                } else {
                    Some(plan_display(t))
                }
            },
            None => None,
        },
        None => None,
    };
    Ok(Quota { plan, windows, reset_available, reset_detail: None })
}

/// The error code of a usage error body: `detail.code`, else
/// `error.code`, else `code`.
pub open spec fn detail_code_spec(body: Seq<char>) -> Option<Seq<char>> {
    let v = json::json_parse_text(body);
    match json::str_field(json::field_of(v, "detail"@), "code"@) {
        Some(c) => Some(c),
        None => match json::str_field(json::field_of(v, "error"@), "code"@) {
            Some(c) => Some(c),
            None => json::str_field(v, "code"@),
        },
    }
}

fn str_member(v: &serde_json::Value, key: &str) -> (r: Option<String>)
    ensures
        opt_view(r) == json::str_field(Some(json::json_view(*v)), key@),
{
    match json::get(v, key) {
        Some(x) => match json::as_str(x) {
            Some(s) => Some(text::to_owned(s)),
            None => None,
        },
        None => None,
    }
}

pub fn detail_code(body: &str) -> (r: Option<String>)
    ensures
        opt_view(r) == detail_code_spec(body@),
{
    let v = match json::parse_json(body) {
        Ok(v) => v,
        Err(_) => return None,
    };
    let d = match json::get(&v, "detail") {
        Some(d) => str_member(d, "code"),
        None => None,
    };
    if d.is_some() {
        return d;
    }
    let e = match json::get(&v, "error") {
        Some(e) => str_member(e, "code"),
        None => None,
    };
    if e.is_some() {
        return e;
    }
    str_member(&v, "code")
}

/// The message of a failed usage request: status, error code and body
/// length, never the body.
pub open spec fn quota_error_spec(status: u16, body: Seq<char>, body_len: usize) -> Seq<char> {
    "配额请求失败: HTTP "@ + text::dec(status as int) + match detail_code_spec(body) {
        Some(c) => ", error_code="@ + c,
        None => Seq::empty(),
    } + ", body_len="@ + text::dec(body_len as int)
}

pub fn quota_error_message(status: u16, body: &str) -> (r: String)
    ensures
        r@ == quota_error_spec(status, body@, body.spec_bytes().len() as usize),
{
    let mut s = text::cat("配额请求失败: HTTP ", text::fmt_u64(status as u64).as_str());
    match detail_code(body) {
        Some(c) => {
            text::push_str(&mut s, ", error_code=");
            text::push_str(&mut s, c.as_str());
        },
        None => {},
    }
    text::push_str(&mut s, ", body_len=");
    text::push_str(&mut s, text::fmt_u64(body.len() as u64).as_str());
    s
}

/// A failed usage request that a forced token refresh may cure: HTTP 401
/// (or an unauthorized message).
pub open spec fn is_unauthorized_spec(message: Seq<char>) -> bool {
    text::has_substring(message, "401"@) || text::has_substring(
        text::ascii_lower_seq(message),
        "unauthorized"@,
    )
}

pub fn is_unauthorized(message: &str) -> (r: bool)
    ensures
        r == is_unauthorized_spec(message@),
{
    text::contains(message, "401") || text::contains(
        text::to_ascii_lowercase(message).as_str(),
        "unauthorized",
    )
}

/// After a quota request, whether the access token is refreshed by force
/// and the request made once more: only when the server rejected the
/// token.
pub fn needs_forced_retry(first: &Result<Quota, String>) -> (r: bool)
    ensures
        r == (first matches Err(e) && is_unauthorized_spec(e@)),
{
    match first {
        Ok(_) => false,
        Err(e) => is_unauthorized(e.as_str()),
    }
}


/// The reset time of a window: `reset_at`, else `now + reset_in_secs`.
pub open spec fn reset_at_spec(w: QuotaWindow, now: i64) -> Option<int> {
    match w.reset_at {
        Some(t) => Some(t as int),
        None => match w.reset_in_secs {
            Some(s) => Some(now + s),
            None => None,
        },
    }
}

/// The absolute reset time (UTC seconds) of a window.
pub fn reset_at_ts(w: &QuotaWindow, now: i64) -> (r: Option<i64>)
    requires
        w.reset_at is None ==> (w.reset_in_secs matches Some(s) ==> i64::MIN <= now + s <= i64::MAX),
    ensures
        match r {
            Some(t) => reset_at_spec(*w, now) == Some(t as int),
            None => reset_at_spec(*w, now) is None,
        },
{
    match w.reset_at {
        Some(t) => Some(t),
        None => match w.reset_in_secs {
            Some(s) => Some(now + s),
            None => None,
        },
    }
}

/// Seconds until a window resets: the relative value, else the time left
/// until `reset_at` (never negative).
pub open spec fn reset_in_spec(w: QuotaWindow, now: i64) -> Option<int> {
    match w.reset_in_secs {
        Some(s) => Some(s as int),
        None => match w.reset_at {
            Some(t) => Some(
                if t - now > 0 {
                    t - now
                } else {
                    0
                },
            ),
            None => None,
        },
    }
}

pub fn reset_in_secs(w: &QuotaWindow, now: i64) -> (r: Option<i64>)
    requires
        w.reset_in_secs is None ==> (w.reset_at matches Some(t) ==> i64::MIN <= t - now <= i64::MAX),
    ensures
        match r {
            Some(x) => reset_in_spec(*w, now) == Some(x as int),
            None => reset_in_spec(*w, now) is None,
        },
{
    match w.reset_in_secs {
        Some(s) => Some(s),
        None => match w.reset_at {
            Some(t) => {
                let d = t - now;
                Some(
                    if d > 0 {
                        d
                    } else {
                        0
                    },
                )
            },
            None => None,
        },
    }
}

/// A countdown: hours and minutes, or minutes and seconds, or seconds;
/// `-` when unknown, a notice when due.
pub open spec fn countdown_spec(secs: Option<i64>) -> Seq<char> {
    match secs {
        None => "-"@,
        Some(s) => if s <= 0 {
            "即将重置"@
        } else {
            let (h, m, sec) = (s as int / 3600, (s as int % 3600) / 60, s as int % 60);
            if h > 0 {
                text::dec(h) + "h"@ + text::pad0(text::dec(m), 2) + "m"@
            } else if m > 0 {
                text::dec(m) + "m"@ + text::pad0(text::dec(sec), 2) + "s"@
            } else {
                text::dec(sec) + "s"@
            }
        },
    }
}

pub fn fmt_countdown(secs: Option<i64>) -> (r: String)
    ensures
        r@ == countdown_spec(secs),
{
    match secs {
        None => text::to_owned("-"),
        Some(s) => if s <= 0 {
            text::to_owned("即将重置")
        } else {
            let h = s / 3600;
            let m = (s % 3600) / 60;
            let sec = s % 60;
            if h > 0 {
                let mut out = text::cat(text::fmt_i64(h).as_str(), "h");
                text::push_str(&mut out, text::fmt_pad0(m as u64, 2).as_str());
                text::push_str(&mut out, "m");
                out
            } else if m > 0 {
                let mut out = text::cat(text::fmt_i64(m).as_str(), "m");
                text::push_str(&mut out, text::fmt_pad0(sec as u64, 2).as_str());
                text::push_str(&mut out, "s");
                out
            } else {
                text::cat(text::fmt_i64(sec).as_str(), "s")
            }
        },
    }
}

/// `n` copies of `c`.
pub open spec fn repeat(c: char, n: nat) -> Seq<char> {
    Seq::new(n, |_i: int| c)
}

/// A ten-cell bar of the remaining percentage (clamped to 0..=100);
/// dashes when unknown.
pub open spec fn bar_spec(remaining: Option<i32>) -> Seq<char> {
    match remaining {
        None => "----------"@,
        Some(p) => {
            let c = if p < 0 {
                0
            } else if p > 100 {
                100
            } else {
                p as int
            };
            let fill = (c * 10 / 100) as nat;
            repeat('█', fill) + repeat('░', (10 - fill) as nat)
        },
    }
}

pub fn quota_bar(remaining: Option<i32>) -> (r: String)
    ensures
        r@ == bar_spec(remaining),
{
    match remaining {
        None => text::to_owned("----------"),
        Some(p) => {
            let c: usize = if p < 0 {
                0
            } else if p > 100 {
                100
            } else {
                p as usize
            };
            let fill = c * 10 / 100;
            let mut out = String::new();
            let mut i: usize = 0;
            while i < 10
                invariant
                    i <= 10,
                    fill <= 10,
                    out@ == (if i <= fill {
                        repeat('█', i as nat)
                    } else {
                        repeat('█', fill as nat) + repeat('░', (i - fill) as nat)
                    }),
                decreases 10 - i,
            {
                if i < fill {
                    text::push_char(&mut out, '█');
                } else {
                    text::push_char(&mut out, '░');
                }
                i = i + 1;
                assert(out@ =~= (if i <= fill {
                    repeat('█', i as nat)
                } else {
                    repeat('█', fill as nat) + repeat('░', (i - fill) as nat)
                }));
            }
            assert(repeat('█', fill as nat) + repeat('░', (10 - fill) as nat) =~= if fill == 10 {
                repeat('█', 10)
            } else {
                repeat('█', fill as nat) + repeat('░', (10 - fill) as nat)
            });
            out
        },
    }
}

impl Default for ResetCredits {
    fn default() -> (r: ResetCredits)
        ensures
            r.available == 0 && r.total_earned is None && r.credits@.len() == 0,
    {
        ResetCredits { available: 0, total_earned: None, credits: Vec::new() }
    }
}

/// The smaller of two optional times, `None` counting as absent.
pub open spec fn min_opt(a: Option<i64>, b: Option<i64>) -> Option<i64> {
    match (a, b) {
        (Some(x), Some(y)) => Some(
            if x <= y {
                x
            } else {
                y
            },
        ),
        (Some(x), None) => Some(x),
        (None, y) => y,
    }
}

/// The earliest expiry among the available credits of `cs`.
pub open spec fn next_expiry_spec(cs: Seq<ResetCredit>) -> Option<i64>
    decreases cs.len(),
{
    if cs.len() == 0 {
        None
    } else {
        let rest = next_expiry_spec(cs.drop_last());
        if cs.last().available {
            min_opt(rest, cs.last().expires_at)
        } else {
            rest
        }
    }
}

impl ResetCredits {
    /// The earliest expiry (UTC seconds) among the available credits;
    /// `None` when none of them has one.
    pub fn next_expiry(&self) -> (r: Option<i64>)
        ensures
            r == next_expiry_spec(self.credits@),
    {
        let mut acc: Option<i64> = None;
        let mut i: usize = 0;
        while i < self.credits.len()
            invariant
                i <= self.credits.len(),
                acc == next_expiry_spec(self.credits@.subrange(0, i as int)),
            decreases self.credits.len() - i,
        {
            let c = &self.credits[i];
            assert(self.credits@.subrange(0, i + 1).drop_last() =~= self.credits@.subrange(
                0,
                i as int,
            ));
            if c.available {
                acc = match (acc, c.expires_at) {
                    (Some(x), Some(y)) => Some(
                        if x <= y {
                            x
                        } else {
                            y
                        },
                    ),
                    (Some(x), None) => Some(x),
                    (None, y) => y,
                };
            }
            i = i + 1;
        }
        assert(self.credits@.subrange(0, self.credits@.len() as int) =~= self.credits@);
        acc
    }
}

/// The time a text gives: `YYYY-MM-DD` then `T` or a space, then `HH:MM`
/// (anything after the minutes, trailing `Z`, and an offset, which is not
/// applied, are ignored).
pub open spec fn text_ts(s: Seq<char>) -> Option<i64> {
    let i = text::find_either(s, 'T', ' ');
    if i >= s.len() {
        None
    } else {
        let dp = text::split_parts(s.subrange(0, i), '-');
        let t1 = jwt::strip_trailing(jwt::strip_trailing(s.subrange(i + 1, s.len() as int), 'Z'), 'z');
        let tp = text::split_parts(t1.subrange(0, text::find_either(t1, '+', '-')), ':');
        if dp.len() < 3 || tp.len() < 2 {
            None
        } else {
            match (
                text::parse_i64_spec(dp[0]),
                text::parse_i64_spec(dp[1]),
                text::parse_i64_spec(dp[2]),
                text::parse_i64_spec(tp[0]),
                text::parse_i64_spec(tp[1]),
            ) {
                (Some(y), Some(m), Some(d), Some(hh), Some(mm)) => if 1 <= m <= 12 && 1 <= d <= 31
                    && hh <= 23 && mm <= 59 {
                    calendar::civil_secs(y as int, m as int, d as int, hh as int, mm as int)
                } else {
                    None
                },
                _ => None,
            }
        }
    }
}

/// A timestamp as the reset-credit records give it: Unix seconds (an
/// integer, or a float truncated) or an RFC 3339 text.
pub open spec fn ts_of(j: JsonDoc) -> Option<i64> {
    match json::as_i64_of(j) {
        Some(n) => Some(n),
        None => match j {
            JsonDoc::Num(JsonNum::Float(t, _)) => Some(t),
            JsonDoc::Num(JsonNum::PosInt(_)) => Some(i64::MAX),
            JsonDoc::Str(s) => text_ts(text::trim_spec(s)),
            _ => None,
        },
    }
}

fn text_ts_exec(s: &str) -> (r: Option<i64>)
    ensures
        r == text_ts(s@),
{
    let cs = text::chars_of(s);
    let i = text::find_either_in(&cs, 'T', ' ');
    if i >= cs.len() {
        return None;
    }
    let date = text::string_of_range(&cs, 0, i);
    let time0 = text::string_of_range(&cs, i + 1, cs.len());
    let time1 = jwt::strip_trailing_of(jwt::strip_trailing_of(time0.as_str(), 'Z').as_str(), 'z');
    let tc = text::chars_of(time1.as_str());
    let k = text::find_either_in(&tc, '+', '-');
    proof {
        text::lemma_find_either(tc@, '+', '-');
    }
    let time = text::string_of_range(&tc, 0, k);
    let dp = text::split_on(date.as_str(), '-');
    let tp = text::split_on(time.as_str(), ':');
    proof {
        assert(dp@.len() == text::split_parts(date@, '-').len());
        assert(tp@.len() == text::split_parts(time@, ':').len());
    }
    if dp.len() < 3 || tp.len() < 2 {
        return None;
    }
    proof {
        assert(dp@[0]@ == text::split_parts(date@, '-')[0]);
        assert(dp@[1]@ == text::split_parts(date@, '-')[1]);
        assert(dp@[2]@ == text::split_parts(date@, '-')[2]);
        assert(tp@[0]@ == text::split_parts(time@, ':')[0]);
        assert(tp@[1]@ == text::split_parts(time@, ':')[1]);
    }
    let y = match text::parse_i64(dp[0].as_str()) {
        Some(v) => v,
        None => return None,
    };
    let m = match text::parse_i64(dp[1].as_str()) {
        Some(v) => v,
        None => return None,
    };
    let d = match text::parse_i64(dp[2].as_str()) {
        Some(v) => v,
        None => return None,
    };
    let hh = match text::parse_i64(tp[0].as_str()) {
        Some(v) => v,
        None => return None,
    };
    let mm = match text::parse_i64(tp[1].as_str()) {
        Some(v) => v,
        None => return None,
    };
    if !(1 <= m && m <= 12) || !(1 <= d && d <= 31) || hh > 23 || mm > 59 {
        return None;
    }
    calendar::civil_secs_exec(y, m, d, hh, mm)
}

/// A timestamp value of a reset-credit record.
fn parse_ts(v: &serde_json::Value) -> (r: Option<i64>)
    ensures
        r == ts_of(json::json_view(*v)),
{
    match json::as_i64(v) {
        Some(n) => return Some(n),
        None => {},
    }
    match json::as_f64_truncated(v) {
        Some(t) => return Some(t),
        None => {},
    }
    match json::as_str(v) {
        Some(s) => {
            let t = text::trim(s);
            text_ts_exec(t.as_str())
        },
        None => None,
    }
}

/// The member `key` trimmed, when it is a non-blank string.
pub open spec fn nonblank_str(v: JsonDoc, key: Seq<char>) -> Option<Seq<char>> {
    match json::str_field(Some(v), key) {
        Some(s) => if text::trim_spec(s).len() > 0 {
            Some(text::trim_spec(s))
        } else {
            None
        },
        None => None,
    }
}

/// The first of two members that is a non-blank string.
pub open spec fn first_str_spec(v: JsonDoc, a: Seq<char>, b: Seq<char>) -> Option<Seq<char>> {
    match nonblank_str(v, a) {
        Some(s) => Some(s),
        None => nonblank_str(v, b),
    }
}

/// The member `key` read as a timestamp.
pub open spec fn ts_field(v: JsonDoc, key: Seq<char>) -> Option<i64> {
    match json::field(v, key) {
        Some(d) => ts_of(d),
        None => None,
    }
}

/// A credit's expiry: the first of `expires_at`, `expire_at`, `expiresAt`
/// that reads as a timestamp.
pub open spec fn expiry_of(v: JsonDoc) -> Option<i64> {
    match ts_field(v, "expires_at"@) {
        Some(t) => Some(t),
        None => match ts_field(v, "expire_at"@) {
            Some(t) => Some(t),
            None => ts_field(v, "expiresAt"@),
        },
    }
}

/// The statuses of a credit that can no longer be used.
pub open spec fn spent_status(s: Seq<char>) -> bool {
    s == "redeemed"@ || s == "consumed"@ || s == "used"@ || s == "expired"@ || s == "invalid"@
        || s == "revoked"@
}

/// `c` is what the record `rec` says at time `now`: a credit is available
/// unless its status (`status`, else `state`, lower-cased) says it is
/// spent or its expiry has passed.
pub open spec fn credit_is(rec: JsonDoc, now: i64, c: ResetCredit) -> bool {
    let status = match first_str_spec(rec, "status"@, "state"@) {
        Some(s) => text::ascii_lower_seq(s),
        None => Seq::empty(),
    };
    &&& opt_view(c.title) == first_str_spec(rec, "title"@, "name"@)
    &&& c.expires_at == expiry_of(rec)
    &&& c.available == (!spent_status(status) && match expiry_of(rec) {
        Some(t) => t > now,
        None => true,
    })
}

fn nonblank_member(v: &serde_json::Value, key: &str) -> (r: Option<String>)
    ensures
        opt_view(r) == nonblank_str(json::json_view(*v), key@),
{
    match json::get(v, key) {
        Some(x) => match json::as_str(x) {
            Some(s) => {
                let t = text::trim(s);
                if t.as_str().is_empty() {
                    None
                } else {
                    Some(t)
                }
            },
            None => None,
        },
        None => None,
    }
}

fn first_str(v: &serde_json::Value, a: &str, b: &str) -> (r: Option<String>)
    ensures
        opt_view(r) == first_str_spec(json::json_view(*v), a@, b@),
{
    match nonblank_member(v, a) {
        Some(s) => Some(s),
        None => nonblank_member(v, b),
    }
}

fn ts_member(v: &serde_json::Value, key: &str) -> (r: Option<i64>)
    ensures
        r == ts_field(json::json_view(*v), key@),
{
    match json::get(v, key) {
        Some(x) => parse_ts(x),
        None => None,
    }
}

fn is_spent(s: &str) -> (r: bool)
    ensures
        r == spent_status(s@),
{
    text::str_eq(s, "redeemed") || text::str_eq(s, "consumed") || text::str_eq(s, "used")
        || text::str_eq(s, "expired") || text::str_eq(s, "invalid") || text::str_eq(s, "revoked")
}

/// Reads one reset-credit record as of `now`.
pub fn parse_reset_credit(record: &serde_json::Value, now: i64) -> (r: ResetCredit)
    ensures
        credit_is(json::json_view(*record), now, r),
{
    let status = match first_str(record, "status", "state") {
        Some(s) => text::to_ascii_lowercase(s.as_str()),
        None => String::new(),
    };
    let expires_at = match ts_member(record, "expires_at") {
        Some(t) => Some(t),
        None => match ts_member(record, "expire_at") {
            Some(t) => Some(t),
            None => ts_member(record, "expiresAt"),
        },
    };
    let unexpired = match expires_at {
        Some(t) => t > now,
        None => true,
    };
    let available = !is_spent(status.as_str()) && unexpired;
    proof {
        if first_str_spec(json::json_view(*record), "status"@, "state"@) is None {
            assert(status@ =~= Seq::<char>::empty());
        }
    }
    ResetCredit { title: first_str(record, "title", "name"), available, expires_at }
}

/// The records of a reset-credits response (`credits`, when an array).
pub open spec fn credit_records(v: JsonDoc) -> Seq<JsonDoc> {
    match json::field(v, "credits"@) {
        Some(JsonDoc::Arr(a)) => a,
        _ => Seq::empty(),
    }
}

/// The number of available credits.
pub open spec fn count_available(cs: Seq<ResetCredit>) -> int
    decreases cs.len(),
{
    if cs.len() == 0 {
        0
    } else {
        count_available(cs.drop_last()) + if cs.last().available {
            1int
        } else {
            0
        }
    }
}

/// What a reset-credits response says at time `now`: one credit per
/// record, `available_count` (else the available credits counted) never
/// below 0, and `total_earned_count`.
pub open spec fn reset_credits_of(v: JsonDoc, now: i64, rc: ResetCredits) -> bool {
    let recs = credit_records(v);
    let n = match json::i64_field(Some(v), "available_count"@) {
        Some(k) => k as int,
        None => count_available(rc.credits@),
    };
    &&& rc.credits@.len() == recs.len()
    &&& forall|i: int| 0 <= i < recs.len() ==> credit_is(recs[i], now, #[trigger] rc.credits@[i])
    &&& rc.available == (if n < 0 {
        0
    } else if n > i64::MAX {
        i64::MAX as int
    } else {
        n
    })
    &&& rc.total_earned == json::i64_field(Some(v), "total_earned_count"@)
}

/// Parses a reset-credits response as of `now`.
pub fn parse_reset_credits_at(body: &str, now: i64) -> (r: Result<ResetCredits, String>)
    ensures
        match r {
            Ok(rc) => json::json_parse_text(body@) matches Some(v) && reset_credits_of(v, now, rc),
            Err(m) => json::json_parse_text(body@) is None && m@ == "解析重置卡响应失败: "@
                + json::json_error_text(body@),
        },
{
    let v = match json::parse_json(body) {
        Ok(v) => v,
        Err(e) => return Err(text::cat("解析重置卡响应失败: ", e.as_str())),
    };
    let ghost recs = credit_records(json::json_view(v));
    let mut credits: Vec<ResetCredit> = Vec::new();
    match json::get(&v, "credits") {
        Some(c) => match json::as_array(c) {
            Some(arr) => {
                let mut i: usize = 0;
                while i < arr.len()
                    invariant
                        i <= arr.len(),
                        recs == arr@.map_values(|x: serde_json::Value| json::json_view(x)),
                        credits@.len() == i,
                        forall|k: int|
                            0 <= k < i ==> credit_is(recs[k], now, #[trigger] credits@[k]),
                    decreases arr.len() - i,
                {
                    let c = parse_reset_credit(&arr[i], now);
                    credits.push(c);
                    i = i + 1;
                }
            },
            None => {},
        },
        None => {},
    }
    let mut count: u64 = 0;
    let mut j: usize = 0;
    while j < credits.len()
        invariant
            j <= credits.len(),
            count == count_available(credits@.subrange(0, j as int)),
            0 <= count <= j,
        decreases credits.len() - j,
    {
        assert(credits@.subrange(0, j + 1).drop_last() =~= credits@.subrange(0, j as int));
        if credits[j].available {
            count = count + 1;
        }
        j = j + 1;
    }
    assert(credits@.subrange(0, credits@.len() as int) =~= credits@);
    let counted: i64 = if count > 9223372036854775807u64 {
        9223372036854775807i64
    } else {
        count as i64
    };
    let n = match json::get(&v, "available_count") {
        Some(x) => match json::as_i64(x) {
            Some(k) => k,
            None => counted,
        },
        None => counted,
    };
    let total_earned = match json::get(&v, "total_earned_count") {
        Some(x) => json::as_i64(x),
        None => None,
    };
    Ok(
        ResetCredits {
            available: if n < 0 {
                0
            } else {
                n
            },
            total_earned,
            credits,
        },
    )
}

/// Parses a reset-credits response as of the current time.
pub fn parse_reset_credits(body: &str) -> (r: Result<ResetCredits, String>)
    ensures
        match r {
            Ok(rc) => json::json_parse_text(body@) matches Some(v) && exists|now: i64|
                #[trigger] reset_credits_of(v, now, rc),
            Err(m) => json::json_parse_text(body@) is None && m@ == "解析重置卡响应失败: "@
                + json::json_error_text(body@),
        },
{
    let secs = crate::quota_cache::now_secs();
    let now: i64 = if secs > 9_223_372_036_854_775_807u64 {
        9_223_372_036_854_775_807i64
    } else {
        secs as i64
    };
    parse_reset_credits_at(body, now)
}

/// `YYYY-MM-DD HH:MM` of a local time in seconds since 1970.
pub open spec fn local_time_text(local: int) -> Seq<char> {
    let days = local / 86400;
    let secs = local % 86400;
    let (y, m, d) = civil_from_days(days);
    text::dec(y) + "-"@ + text::pad0(text::dec(m), 2) + "-"@ + text::pad0(text::dec(d), 2) + " "@
        + text::pad0(text::dec(secs / 3600), 2) + ":"@ + text::pad0(text::dec((secs % 3600) / 60), 2)
}

/// A UTC time (seconds) shown in the local zone, `offset_secs` east of
/// UTC, as `YYYY-MM-DD HH:MM`.
pub fn fmt_ts_local(ts: i64, offset_secs: i64) -> (r: String)
    requires
        i64::MIN <= ts + offset_secs <= i64::MAX,
    ensures
        r@ == local_time_text(ts + offset_secs),
{
    let local: i64 = ts + offset_secs;
    let days: i64 = if local >= 0 {
        local / 86400
    } else {
        ((local as i128 - 86399) / 86400) as i64
    };
    let secs: i64 = (local as i128 - days as i128 * 86400) as i64;
    assert(days == local / 86400 && secs == local % 86400);
    let h = secs / 3600;
    let mi = (secs % 3600) / 60;
    let (year, month, d) = calendar::civil_exec(days);
    let mut out = text::fmt_i64(year);
    text::push_str(&mut out, "-");
    text::push_str(&mut out, text::fmt_i64_pad2(month).as_str());
    text::push_str(&mut out, "-");
    text::push_str(&mut out, text::fmt_i64_pad2(d).as_str());
    text::push_str(&mut out, " ");
    text::push_str(&mut out, text::fmt_i64_pad2(h).as_str());
    text::push_str(&mut out, ":");
    text::push_str(&mut out, text::fmt_i64_pad2(mi).as_str());
    out
}

impl NamedWindow {
    /// A field-by-field copy.
    pub fn copy(&self) -> (r: NamedWindow)
        ensures
            r == *self,
    {
        NamedWindow { label: self.label.clone(), window: self.window }
    }
}

impl ResetCredit {
    /// A field-by-field copy.
    pub fn copy(&self) -> (r: ResetCredit)
        ensures
            r == *self,
    {
        ResetCredit {
            title: crate::account::copy_opt(&self.title),
            available: self.available,
            expires_at: self.expires_at,
        }
    }
}

impl ResetCredits {
    /// A field-by-field copy.
    pub fn copy(&self) -> (r: ResetCredits)
        ensures
            r.available == self.available,
            r.total_earned == self.total_earned,
            r.credits@ == self.credits@,
    {
        let mut credits: Vec<ResetCredit> = Vec::new();
        let mut i: usize = 0;
        while i < self.credits.len()
            invariant
                i <= self.credits.len(),
                credits@ == self.credits@.subrange(0, i as int),
            decreases self.credits.len() - i,
        {
            credits.push(self.credits[i].copy());
            i = i + 1;
            assert(credits@ =~= self.credits@.subrange(0, i as int));
        }
        assert(self.credits@.subrange(0, self.credits@.len() as int) =~= self.credits@);
        ResetCredits { available: self.available, total_earned: self.total_earned, credits }
    }
}

/// Two quotas hold the same facts.
pub open spec fn same_quota(a: Quota, b: Quota) -> bool {
    &&& a.plan == b.plan
    &&& a.windows@ == b.windows@
    &&& a.reset_available == b.reset_available
    &&& match (a.reset_detail, b.reset_detail) {
        (Some(x), Some(y)) => x.available == y.available && x.total_earned == y.total_earned
            && x.credits@ == y.credits@,
        (None, None) => true,
        _ => false,
    }
}

impl Quota {
    /// A field-by-field copy.
    pub fn copy(&self) -> (r: Quota)
        ensures
            same_quota(r, *self),
    {
        let mut windows: Vec<NamedWindow> = Vec::new();
        let mut i: usize = 0;
        while i < self.windows.len()
            invariant
                i <= self.windows.len(),
                windows@ == self.windows@.subrange(0, i as int),
            decreases self.windows.len() - i,
        {
            windows.push(self.windows[i].copy());
            i = i + 1;
            assert(windows@ =~= self.windows@.subrange(0, i as int));
        }
        assert(self.windows@.subrange(0, self.windows@.len() as int) =~= self.windows@);
        Quota {
            plan: crate::account::copy_opt(&self.plan),
            windows,
            reset_available: self.reset_available,
            reset_detail: match &self.reset_detail {
                Some(d) => Some(d.copy()),
                None => None,
            },
        }
    }
}

} // verus!
