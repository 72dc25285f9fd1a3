//! The terminal UI's account overview as a table: which columns fit a
//! width, their headings and widths, and what each cell shows. Drawing is
//! the caller's.

use crate::account::{opt_view, Account};
use crate::quota::Quota;
use crate::quota_cache::TTL_SECS;
use crate::recommendation::{self, weekly_spec};
use crate::text;
use crate::token_health::{self, TokenHealth};
use vstd::prelude::*;

verus! {

/// A column of the overview.
#[derive(Debug, Clone, Copy, PartialEq, Eq, Structural)]
pub enum Column {
    Account,
    Status,
    Plan,
    Week,
    Access,
    Refresh,
}

/// The columns that fit a width: all six from 78 cells, four from 60,
/// else three.
pub open spec fn columns_spec(width: u16) -> Seq<Column> {
    if width >= 78 {
        seq![Column::Account, Column::Status, Column::Plan, Column::Week, Column::Access, Column::Refresh]
    } else if width >= 60 {
        seq![Column::Account, Column::Status, Column::Week, Column::Access]
    } else {
        seq![Column::Account, Column::Status, Column::Week]
    }
}

pub fn columns(width: u16) -> (r: Vec<Column>)
    ensures
        r@ == columns_spec(width),
{
    let mut v: Vec<Column> = Vec::new();
    if width >= 78 {
        v.push(Column::Account);
        v.push(Column::Status);
        v.push(Column::Plan);
        v.push(Column::Week);
        v.push(Column::Access);
        v.push(Column::Refresh);
    } else if width >= 60 {
        v.push(Column::Account);
        v.push(Column::Status);
        v.push(Column::Week);
        v.push(Column::Access);
    } else {
        v.push(Column::Account);
        v.push(Column::Status);
        v.push(Column::Week);
    }
    assert(v@ =~= columns_spec(width));
    v
}

pub open spec fn heading_spec(column: Column) -> Seq<char> {
    match column {
        Column::Account => "账号"@,
        Column::Status => "状态"@,
        Column::Plan => "计划"@,
        Column::Week => "周剩余"@,
        Column::Access => "AT"@,
        Column::Refresh => "RT"@,
    }
}

/// A column's heading.
pub fn heading(column: Column) -> (r: &'static str)
    ensures
        r@ == heading_spec(column),
{
    match column {
        Column::Account => "账号",
        Column::Status => "状态",
        Column::Plan => "计划",
        Column::Week => "周剩余",
        Column::Access => "AT",
        Column::Refresh => "RT",
    }
}

/// A column's width: at least some cells, or exactly some.
#[derive(Debug, Clone, Copy, PartialEq, Eq, Structural)]
pub enum ColumnWidth {
    Min(u16),
    Length(u16),
}

pub open spec fn constraint_spec(column: Column) -> ColumnWidth {
    match column {
        Column::Account => ColumnWidth::Min(18),
        Column::Status => ColumnWidth::Length(13),
        Column::Plan => ColumnWidth::Length(12),
        Column::Week => ColumnWidth::Length(10),
        Column::Access => ColumnWidth::Length(9),
        Column::Refresh => ColumnWidth::Length(9),
    }
}

/// A column's width.
pub fn constraint(column: Column) -> (r: ColumnWidth)
    ensures
        r == constraint_spec(column),
{
    match column {
        Column::Account => ColumnWidth::Min(18),
        Column::Status => ColumnWidth::Length(13),
        Column::Plan => ColumnWidth::Length(12),
        Column::Week => ColumnWidth::Length(10),
        Column::Access | Column::Refresh => ColumnWidth::Length(9),
    }
}

/// The weekly remaining share as shown: `NN%`, or `未知`.
pub open spec fn weekly_text(q: Option<Quota>) -> Seq<char> {
    match q {
        Some(quota) => match weekly_spec(quota) {
            Some(v) => text::dec(v as int) + "%"@,
            None => "未知"@,
        },
        None => "未知"@,
    }
}

pub fn weekly_percent(quota: Option<&Quota>) -> (r: String)
    ensures
        r@ == weekly_text(
            match quota {
                Some(q) => Some(*q),
                None => None,
            },
        ),
{
    match quota {
        Some(q) => match recommendation::weekly_remaining(q) {
            Some(v) => text::cat(text::fmt_i64(v as i64).as_str(), "%"),
            None => text::to_owned("未知"),
        },
        None => text::to_owned("未知"),
    }
}

/// Whether an id is in a list.
pub open spec fn listed(ids: Seq<String>, id: Seq<char>) -> bool {
    exists|i: int| 0 <= i < ids.len() && (#[trigger] ids[i])@ == id
}

/// Whether an id has an entry.
pub open spec fn keyed<T>(es: Seq<(String, T)>, id: Seq<char>) -> bool {
    exists|i: int| 0 <= i < es.len() && (#[trigger] es[i]).0@ == id
}

/// The value of an id's first entry.
pub open spec fn first_value<T>(es: Seq<(String, T)>, id: Seq<char>) -> Option<T>
    decreases es.len(),
{
    if es.len() == 0 {
        None
    } else if es[0].0@ == id {
        Some(es[0].1)
    } else {
        first_value(es.drop_first(), id)
    }
}

fn in_list(ids: &Vec<String>, id: &str) -> (r: bool)
    ensures
        r == listed(ids@, id@),
{
    let mut i: usize = 0;
    while i < ids.len()
        invariant
            i <= ids.len(),
            forall|j: int| 0 <= j < i ==> (#[trigger] ids@[j])@ != id@,
        decreases ids.len() - i,
    {
        if text::str_eq(ids[i].as_str(), id) {
            return true;
        }
        i = i + 1;
    }
    false
}

fn has_key<T>(es: &Vec<(String, T)>, id: &str) -> (r: bool)
    ensures
        r == keyed(es@, id@),
{
    let mut i: usize = 0;
    while i < es.len()
        invariant
            i <= es.len(),
            forall|j: int| 0 <= j < i ==> (#[trigger] es@[j]).0@ != id@,
        decreases es.len() - i,
    {
        if text::str_eq(es[i].0.as_str(), id) {
            return true;
        }
        i = i + 1;
    }
    false
}

fn fetched_at(times: &Vec<(String, u64)>, id: &str) -> (r: Option<u64>)
    ensures
        r == first_value(times@, id@),
{
    let mut i: usize = 0;
    assert(times@.subrange(0, times@.len() as int) =~= times@);
    while i < times.len()
        invariant
            i <= times.len(),
            first_value(times@, id@) == first_value(times@.subrange(i as int, times@.len() as int), id@),
        decreases times.len() - i,
    {
        assert(times@.subrange(i as int, times@.len() as int).drop_first() =~= times@.subrange(
            i + 1,
            times@.len() as int,
        ));
        if text::str_eq(times[i].0.as_str(), id) {
            return Some(times[i].1);
        }
        i = i + 1;
    }
    None
}

/// The quota cell of an account: in progress, failed or not yet queried
/// while nothing is shown; the weekly share (marked old when not fetched
/// within the TTL or when the last query failed) in the week column.
pub open spec fn quota_value_spec(
    id: Seq<char>,
    quota: Option<Quota>,
    pending: Seq<String>,
    errors: Seq<(String, String)>,
    times: Seq<(String, u64)>,
    column: Column,
    now: u64,
) -> Seq<char> {
    if listed(pending, id) && quota is None {
        "查询中"@
    } else if keyed(errors, id) && quota is None {
        "失败"@
    } else if quota is None {
        "待查询"@
    } else if column is Week {
        let value = weekly_text(quota);
        let fresh = match first_value(times, id) {
            Some(t) => now >= t && now - t < TTL_SECS,
            None => false,
        };
        if !fresh || keyed(errors, id) {
            value + " 旧"@
        } else {
            value
        }
    } else {
        Seq::empty()
    }
}

pub fn quota_value(
    id: &str,
    quota: Option<&Quota>,
    pending: &Vec<String>,
    errors: &Vec<(String, String)>,
    quota_times: &Vec<(String, u64)>,
    column: Column,
    now: u64,
) -> (r: String)
    ensures
        r@ == quota_value_spec(
            id@,
            match quota {
                Some(q) => Some(*q),
                None => None,
            },
            pending@,
            errors@,
            quota_times@,
            column,
            now,
        ),
{
    if in_list(pending, id) && quota.is_none() {
        return text::to_owned("查询中");
    }
    let failed = has_key(errors, id);
    if failed && quota.is_none() {
        return text::to_owned("失败");
    }
    let q = match quota {
        Some(q) => q,
        None => return text::to_owned("待查询"),
    };
    match column {
        Column::Week => {
            let value = weekly_percent(Some(q));
            let fresh = match fetched_at(quota_times, id) {
                Some(t) => now >= t && now - t < TTL_SECS,
                None => false,
            };
            if !fresh || failed {
                text::cat(value.as_str(), " 旧")
            } else {
                value
            }
        },
        _ => String::new(),
    }
}

/// The colour of a cell.
#[derive(Debug, Clone, Copy, PartialEq, Eq, Structural)]
pub enum CellColor {
    Yellow,
    Green,
    Cyan,
    Reset,
}

/// The status cell of an account.
pub open spec fn status_text(stale: bool, current: bool, recommended: bool) -> Seq<char> {
    if stale {
        "⚠ 需登录"@
    } else if current && recommended {
        "● 使用中 ★"@
    } else if current {
        "● 使用中"@
    } else if recommended {
        "★ 建议"@
    } else {
        "未激活"@
    }
}

/// What a cell of an account shows, and in which colour.
pub open spec fn cell_spec(
    a: Account,
    column: Column,
    current: bool,
    recommended: bool,
    health: TokenHealth,
    quota: Option<Quota>,
    quota_cell: Seq<char>,
) -> (Seq<char>, CellColor) {
    let value = match column {
        Column::Account => a.email@,
        Column::Status => status_text(a.stale, current, recommended),
        Column::Plan => match quota {
            Some(q) => match opt_view(q.plan) {
                Some(p) => p,
                None => "待查询"@,
            },
            None => "待查询"@,
        },
        Column::Week => quota_cell,
        Column::Access => health.label_spec(),
        Column::Refresh => if health.has_refresh_token {
            "可续期"@
        } else {
            "缺失"@
        },
    };
    let color = if column is Status && a.stale {
        CellColor::Yellow
    } else if column is Status && current {
        CellColor::Green
    } else if column is Status && recommended {
        CellColor::Cyan
    } else if column is Access && !health.can_project_spec() {
        CellColor::Yellow
    } else {
        CellColor::Reset
    };
    (value, color)
}

/// A cell of an account's row at `now`.
pub fn cell(
    a: &Account,
    column: Column,
    current: bool,
    recommended: bool,
    quota: Option<&Quota>,
    pending: &Vec<String>,
    errors: &Vec<(String, String)>,
    quota_times: &Vec<(String, u64)>,
    now: u64,
) -> (r: (String, CellColor))
    ensures
        r.0@ == cell_spec(
            *a,
            column,
            current,
            recommended,
            token_health::assess_spec(a.access_token@, a.refresh_token@, a.expires_at, a.stale, now),
            match quota {
                Some(q) => Some(*q),
                None => None,
            },
            quota_value_spec(
                a.id@,
                match quota {
                    Some(q) => Some(*q),
                    None => None,
                },
                pending@,
                errors@,
                quota_times@,
                column,
                now,
            ),
        ).0,
        r.1 == cell_spec(
            *a,
            column,
            current,
            recommended,
            token_health::assess_spec(a.access_token@, a.refresh_token@, a.expires_at, a.stale, now),
            match quota {
                Some(q) => Some(*q),
                None => None,
            },
            Seq::empty(),
        ).1,
{
    let health = token_health::assess(
        a.access_token.as_str(),
        a.refresh_token.as_str(),
        a.expires_at,
        a.stale,
        now,
    );
    let value = match column {
        Column::Account => a.email.clone(),
        Column::Status => if a.stale {
            text::to_owned("⚠ 需登录")
        } else if current && recommended {
            text::to_owned("● 使用中 ★")
        } else if current {
            text::to_owned("● 使用中")
        } else if recommended {
            text::to_owned("★ 建议")
        } else {
            text::to_owned("未激活")
        },
        Column::Plan => match quota {
            Some(q) => match &q.plan {
                Some(p) => p.clone(),
                None => text::to_owned("待查询"),
            },
            None => text::to_owned("待查询"),
        },
        Column::Week => quota_value(a.id.as_str(), quota, pending, errors, quota_times, column, now),
        Column::Access => text::to_owned(health.label()),
        Column::Refresh => if health.has_refresh_token {
            text::to_owned("可续期")
        } else {
            text::to_owned("缺失")
        },
    };
    let color = match column {
        Column::Status => if a.stale {
            CellColor::Yellow
        } else if current {
            CellColor::Green
        } else if recommended {
            CellColor::Cyan
        } else {
            CellColor::Reset
        },
        Column::Access => if !health.can_project_without_refresh() {
            CellColor::Yellow
        } else {
            CellColor::Reset
        },
        _ => CellColor::Reset,
    };
    (value, color)
}

/// The overview's title: the number of accounts, or the filter in use.
pub open spec fn title_spec(n: usize, filter: Seq<char>) -> Seq<char> {
    if filter.len() == 0 {
        " 账号总览 ("@ + text::dec(n as int) + ") "@
    } else {
        " 账号总览 ["@ + filter + "] "@
    }
}

pub fn title(n: usize, filter: &str) -> (r: String)
    ensures
        r@ == title_spec(n, filter@),
{
    let fc = text::chars_of(filter);
    if fc.len() == 0 {
        let mut s = text::cat(" 账号总览 (", text::fmt_u64(n as u64).as_str());
        text::push_str(&mut s, ") ");
        s
    } else {
        let mut s = text::cat(" 账号总览 [", filter);
        text::push_str(&mut s, "] ");
        s
    }
}

} // verus!
