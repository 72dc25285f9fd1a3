//! The decisions of the numbered menu: what a typed line asks for, which
//! account a number names, and what picking it does.

use crate::account::{opt_view, Account, AccountsFile};
use crate::quota::{bar_spec, quota_bar, QuotaWindow};
use crate::recommendation::{Reason, Recommendation};
use crate::text::{self, all_digits, parse_usize_spec, trim_spec};
use vstd::prelude::*;

verus! {

/// What a line typed at the menu asks for.
#[derive(Debug, Clone, Copy, PartialEq, Eq, Structural)]
pub enum MenuChoice {
    Quit,
    Add,
    Reauth,
    Usage,
    Doctor,
    Update,
    Delete,
    /// An account number (counted from 1).
    Pick(usize),
    /// Digits that do not fit a number.
    BadNumber,
    /// An empty line.
    Nothing,
    Unknown,
}

/// The menu's reading of a line, once trimmed.
pub open spec fn menu_choice_spec(t: Seq<char>) -> MenuChoice {
    if t == "q"@ || t == "quit"@ || t == "exit"@ {
        MenuChoice::Quit
    } else if t == "a"@ || t == "add"@ {
        MenuChoice::Add
    } else if t == "r"@ || t == "reauth"@ {
        MenuChoice::Reauth
    } else if t == "u"@ || t == "usage"@ {
        MenuChoice::Usage
    } else if t == "doctor"@ || t == "check"@ {
        MenuChoice::Doctor
    } else if t == "update"@ {
        MenuChoice::Update
    } else if t == "d"@ || t == "delete"@ {
        MenuChoice::Delete
    } else if all_digits(t) {
        match parse_usize_spec(t) {
            Some(n) => MenuChoice::Pick(n),
            None => MenuChoice::BadNumber,
        }
    } else if t.len() == 0 {
        MenuChoice::Nothing
    } else {
        MenuChoice::Unknown
    }
}

fn only_digits(s: &str) -> (r: bool)
    ensures
        r == all_digits(s@),
{
    let cs = text::chars_of(s);
    if cs.len() == 0 {
        return false;
    }
    let mut i: usize = 0;
    while i < cs.len()
        invariant
            i <= cs.len(),
            cs@ == s@,
            forall|j: int| 0 <= j < i ==> text::is_digit(#[trigger] cs@[j]),
        decreases cs.len() - i,
    {
        if !('0' <= cs[i] && cs[i] <= '9') {
            return false;
        }
        i = i + 1;
    }
    true
}

/// What a typed line asks the menu for.
pub fn menu_choice(line: &str) -> (r: MenuChoice)
    ensures
        r == menu_choice_spec(trim_spec(line@)),
{
    let t = text::trim(line);
    let s = t.as_str();
    if text::str_eq(s, "q") || text::str_eq(s, "quit") || text::str_eq(s, "exit") {
        MenuChoice::Quit
    } else if text::str_eq(s, "a") || text::str_eq(s, "add") {
        MenuChoice::Add
    } else if text::str_eq(s, "r") || text::str_eq(s, "reauth") {
        MenuChoice::Reauth
    } else if text::str_eq(s, "u") || text::str_eq(s, "usage") {
        MenuChoice::Usage
    } else if text::str_eq(s, "doctor") || text::str_eq(s, "check") {
        MenuChoice::Doctor
    } else if text::str_eq(s, "update") {
        MenuChoice::Update
    } else if text::str_eq(s, "d") || text::str_eq(s, "delete") {
        MenuChoice::Delete
    } else if only_digits(s) {
        match text::parse_usize(s) {
            Some(n) => MenuChoice::Pick(n),
            None => MenuChoice::BadNumber,
        }
    } else if s.is_empty() {
        MenuChoice::Nothing
    } else {
        MenuChoice::Unknown
    }
}

/// A number typed at a prompt, as `usize::from_str` reads the trimmed
/// line; the error the menu shows otherwise.
pub fn prompt_number(line: &str) -> (r: Result<usize, String>)
    ensures
        match parse_usize_spec(trim_spec(line@)) {
            Some(n) => r == Ok::<usize, String>(n),
            None => r matches Err(m) && m@ == "无效编号"@,
        },
{
    let t = text::trim(line);
    match text::parse_usize(t.as_str()) {
        Some(n) => Ok(n),
        None => Err(text::to_owned("无效编号")),
    }
}

/// The index of the account numbered `n` (from 1); an error naming the
/// number when there is none.
pub fn numbered(file: &AccountsFile, n: usize) -> (r: Result<usize, String>)
    ensures
        1 <= n <= file.accounts@.len() ==> r == Ok::<usize, String>((n - 1) as usize),
        !(1 <= n <= file.accounts@.len()) ==> (r matches Err(m) && m@ == "编号 "@ + text::dec(n as int)
            + " 不存在"@),
{
    if n >= 1 && n <= file.accounts.len() {
        Ok(n - 1)
    } else {
        let mut m = text::cat("编号 ", text::fmt_u64(n as u64).as_str());
        text::push_str(&mut m, " 不存在");
        Err(m)
    }
}

/// What picking an account does.
#[derive(Debug, Clone, Copy, PartialEq, Eq, Structural)]
pub enum Pick {
    /// Its credentials are stale: it must be logged in again first.
    Stale,
    /// It is already in use: nothing to switch.
    InUse,
    /// Switch to it.
    Switch,
}

/// What picking the account at `i` does.
pub fn pick_outcome(file: &AccountsFile, i: usize) -> (r: Pick)
    requires
        i < file.accounts@.len(),
    ensures
        r == (if file.accounts@[i as int].stale {
            Pick::Stale
        } else if file.is_current(file.accounts@[i as int].id@) {
            Pick::InUse
        } else {
            Pick::Switch
        }),
{
    let a = &file.accounts[i];
    if a.stale {
        return Pick::Stale;
    }
    let in_use = match &file.current_account_id {
        Some(c) => text::str_eq(c.as_str(), a.id.as_str()),
        None => false,
    };
    if in_use {
        Pick::InUse
    } else {
        Pick::Switch
    }
}

/// The stale accounts with their menu numbers (from 1), in order:
/// (number, id, email).
pub open spec fn stale_numbers_spec(accs: Seq<Account>) -> Seq<(usize, Seq<char>, Seq<char>)>
    decreases accs.len(),
{
    if accs.len() == 0 {
        Seq::empty()
    } else if accs.last().stale {
        stale_numbers_spec(accs.drop_last()).push((accs.len() as usize, accs.last().id@, accs.last().email@))
    } else {
        stale_numbers_spec(accs.drop_last())
    }
}

pub fn stale_numbers(file: &AccountsFile) -> (r: Vec<(usize, String, String)>)
    ensures
        r@.map_values(|e: (usize, String, String)| (e.0, e.1@, e.2@)) == stale_numbers_spec(file.accounts@),
{
    let mut out: Vec<(usize, String, String)> = Vec::new();
    let mut i: usize = 0;
    while i < file.accounts.len()
        invariant
            i <= file.accounts.len(),
            out@.map_values(|e: (usize, String, String)| (e.0, e.1@, e.2@)) == stale_numbers_spec(
                file.accounts@.subrange(0, i as int),
            ),
        decreases file.accounts.len() - i,
    {
        let ghost pre = file.accounts@.subrange(0, i as int);
        assert(file.accounts@.subrange(0, i + 1).drop_last() =~= pre);
        let a = &file.accounts[i];
        if a.stale {
            out.push((i + 1, a.id.clone(), a.email.clone()));
            assert(out@.map_values(|e: (usize, String, String)| (e.0, e.1@, e.2@)) =~= stale_numbers_spec(
                pre,
            ).push(((i + 1) as usize, a.id@, a.email@)));
        }
        i = i + 1;
    }
    assert(file.accounts@.subrange(0, file.accounts@.len() as int) =~= file.accounts@);
    out
}

/// The entry of `list` numbered `n`; an error naming the number when no
/// stale account has it.
pub fn stale_numbered(list: &Vec<(usize, String, String)>, n: usize) -> (r: Result<usize, String>)
    ensures
        match r {
            Ok(k) => k < list@.len() && list@[k as int].0 == n && forall|j: int| 0 <= j < k ==> (#[trigger] list@[j]).0 != n,
            Err(m) => (forall|j: int| 0 <= j < list@.len() ==> (#[trigger] list@[j]).0 != n) && m@
                == "编号 "@ + text::dec(n as int) + " 不是待复活账号"@,
        },
{
    let mut k: usize = 0;
    while k < list.len()
        invariant
            k <= list.len(),
            forall|j: int| 0 <= j < k ==> (#[trigger] list@[j]).0 != n,
        decreases list.len() - k,
    {
        if list[k].0 == n {
            return Ok(k);
        }
        k = k + 1;
    }
    let mut m = text::cat("编号 ", text::fmt_u64(n as u64).as_str());
    text::push_str(&mut m, " 不是待复活账号");
    Err(m)
}

/// A deletion is confirmed by `y` (either case), spaces around it allowed.
pub fn confirmed(answer: &str) -> (r: bool)
    ensures
        r == (trim_spec(answer@) == "y"@ || trim_spec(answer@) == "Y"@),
{
    let t = text::trim(answer);
    text::str_eq(t.as_str(), "y") || text::str_eq(t.as_str(), "Y")
}

/// The message after a stale account is logged in again: the account in
/// use never changes; only when the account is the one in use did the
/// official credentials follow.
pub open spec fn reauth_message_spec(email: Seq<char>, is_current: bool) -> Seq<char> {
    "已重新登录: "@ + email + if is_current {
        "（使用中账号的凭据已同步）"@
    } else {
        "（当前账号未改变）"@
    }
}

pub fn reauth_message(email: &str, is_current: bool) -> (r: String)
    ensures
        r@ == reauth_message_spec(email@, is_current),
{
    let mut s = text::cat("已重新登录: ", email);
    if is_current {
        text::push_str(&mut s, "（使用中账号的凭据已同步）");
    } else {
        text::push_str(&mut s, "（当前账号未改变）");
    }
    s
}

/// The remaining share as the classic quota view shows it, right-aligned
/// in four columns: `NN%`, or `未知`.
pub open spec fn share_cell(remaining: Option<i32>) -> Seq<char> {
    crate::ui::pad_left(
        match remaining {
            Some(p) => text::dec(p as int) + "%"@,
            None => "未知"@,
        },
        4,
    )
}

/// The weekly line of the classic quota view: the bar, the share and the
/// reset time as the caller shows it; unknown without a weekly window.
pub open spec fn weekly_row_spec(w: Option<QuotaWindow>, reset_shown: Option<Seq<char>>) -> Seq<char> {
    match w {
        Some(win) => "    周剩余 "@ + bar_spec(win.remaining) + " "@ + share_cell(win.remaining) + " · 重置于 "@
            + match reset_shown {
            Some(r) => r,
            None => "未知"@,
        },
        None => "    周剩余 未知"@,
    }
}

pub fn weekly_row(w: Option<&QuotaWindow>, reset_shown: Option<String>) -> (r: String)
    ensures
        r@ == weekly_row_spec(
            match w {
                Some(x) => Some(*x),
                None => None,
            },
            opt_view(reset_shown),
        ),
{
    match w {
        Some(win) => {
            let share = match win.remaining {
                Some(p) => text::cat(text::fmt_i64(p as i64).as_str(), "%"),
                None => text::to_owned("未知"),
            };
            let mut s = text::to_owned("    周剩余 ");
            text::push_str(&mut s, quota_bar(win.remaining).as_str());
            text::push_str(&mut s, " ");
            let n = text::chars_of(share.as_str()).len();
            let mut k = n;
            while k < 4
                invariant
                    n <= k <= 4 || (n > 4 && k == n),
                    s@ == "    周剩余 "@ + bar_spec(win.remaining) + " "@ + Seq::new((k - n) as nat, |_i: int| ' '),
                decreases 4 - k,
            {
                text::push_char(&mut s, ' ');
                k = k + 1;
                assert(Seq::new((k - n) as nat, |_i: int| ' ') =~= Seq::new((k - 1 - n) as nat, |_i: int| ' ').push(' '));
            }
            text::push_str(&mut s, share.as_str());
            text::push_str(&mut s, " · 重置于 ");
            match reset_shown {
                Some(r) => text::push_str(&mut s, r.as_str()),
                None => text::push_str(&mut s, "未知"),
            }
            proof {
                let sh = match win.remaining {
                    Some(p) => text::dec(p as int) + "%"@,
                    None => "未知"@,
                };
                assert(share@ == sh);
                if n < 4 {
                    assert(crate::ui::pad_left(sh, 4) == Seq::new((4 - n) as nat, |_i: int| ' ') + sh);
                } else {
                    assert(Seq::new(0nat, |_i: int| ' ') =~= Seq::<char>::empty());
                }
            }
            s
        },
        None => text::to_owned("    周剩余 未知"),
    }
}

/// The advice after the classic quota view: keep the account in use, use
/// another, or none.
pub open spec fn advice_spec(r: Option<Recommendation>) -> Seq<char> {
    match r {
        Some(rec) => if rec.reason == Reason::KeepCurrent {
            "建议继续使用 "@ + rec.email@ + "（周剩余 "@ + text::dec(rec.weekly_remaining as int) + "%）"@
        } else {
            "建议使用 "@ + rec.email@ + "（周剩余 "@ + text::dec(rec.weekly_remaining as int) + "%）"@
        },
        None => "暂无可用建议"@,
    }
}

pub fn advice(r: &Option<Recommendation>) -> (s: String)
    ensures
        s@ == advice_spec(*r),
{
    match r {
        Some(rec) => {
            let mut s = if rec.reason == Reason::KeepCurrent {
                text::cat("建议继续使用 ", rec.email.as_str())
            } else {
                text::cat("建议使用 ", rec.email.as_str())
            };
            text::push_str(&mut s, "（周剩余 ");
            text::push_str(&mut s, text::fmt_i64(rec.weekly_remaining as i64).as_str());
            text::push_str(&mut s, "%）");
            s
        },
        None => text::to_owned("暂无可用建议"),
    }
}

} // verus!
