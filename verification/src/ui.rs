//! Terminal styling: ANSI colours around text, the semantic markers, and
//! the classic menu's account line. Whether colour is on (`NO_COLOR`, a
//! terminal on stdout) is the caller's to decide and pass in.

use crate::text;
use vstd::prelude::*;

verus! {

/// `t` wrapped in the SGR code `code` when colour is on, else `t`.
pub open spec fn painted(code: Seq<char>, t: Seq<char>, color: bool) -> Seq<char> {
    if color {
        "\u{1b}["@ + code + "m"@ + t + "\u{1b}[0m"@
    } else {
        t
    }
}

/// Wraps `t` in an ANSI SGR code when colour is on.
pub fn paint(code: &str, t: &str, color: bool) -> (r: String)
    ensures
        r@ == painted(code@, t@, color),
{
    if color {
        let mut s = text::cat("\u{1b}[", code);
        text::push_str(&mut s, "m");
        text::push_str(&mut s, t);
        text::push_str(&mut s, "\u{1b}[0m");
        s
    } else {
        text::to_owned(t)
    }
}

pub fn bold(t: &str, color: bool) -> (r: String)
    ensures
        r@ == painted("1"@, t@, color),
{
    paint("1", t, color)
}

pub fn dim(t: &str, color: bool) -> (r: String)
    ensures
        r@ == painted("2"@, t@, color),
{
    paint("2", t, color)
}

pub fn green(t: &str, color: bool) -> (r: String)
    ensures
        r@ == painted("32"@, t@, color),
{
    paint("32", t, color)
}

pub fn yellow(t: &str, color: bool) -> (r: String)
    ensures
        r@ == painted("33"@, t@, color),
{
    paint("33", t, color)
}

pub fn red(t: &str, color: bool) -> (r: String)
    ensures
        r@ == painted("31"@, t@, color),
{
    paint("31", t, color)
}

pub fn cyan(t: &str, color: bool) -> (r: String)
    ensures
        r@ == painted("36"@, t@, color),
{
    paint("36", t, color)
}

pub fn cyan_bold(t: &str, color: bool) -> (r: String)
    ensures
        r@ == painted("1;36"@, t@, color),
{
    paint("1;36", t, color)
}

/// A message after a marker, separated by a space.
pub open spec fn marked_msg(marker: Seq<char>, msg: Seq<char>) -> Seq<char> {
    marker + " "@ + msg
}

fn with_marker(marker: String, msg: &str) -> (r: String)
    ensures
        r@ == marked_msg(marker@, msg@),
{
    let mut s = marker;
    text::push_str(&mut s, " ");
    text::push_str(&mut s, msg);
    s
}

/// A success message: a green ✅ before it.
pub fn success(msg: &str, color: bool) -> (r: String)
    ensures
        r@ == marked_msg(painted("32"@, "✅"@, color), msg@),
{
    with_marker(green("✅", color), msg)
}

/// A warning: a yellow ⚠ before it.
pub fn warn(msg: &str, color: bool) -> (r: String)
    ensures
        r@ == marked_msg(painted("33"@, "⚠"@, color), msg@),
{
    with_marker(yellow("⚠", color), msg)
}

/// An error: a red ✗ before it.
pub fn error(msg: &str, color: bool) -> (r: String)
    ensures
        r@ == marked_msg(painted("31"@, "✗"@, color), msg@),
{
    with_marker(red("✗", color), msg)
}

/// A notice: a cyan ℹ before it.
pub fn info(msg: &str, color: bool) -> (r: String)
    ensures
        r@ == marked_msg(painted("36"@, "ℹ"@, color), msg@),
{
    with_marker(cyan("ℹ", color), msg)
}

/// Work in progress, in cyan.
pub fn action(msg: &str, color: bool) -> (r: String)
    ensures
        r@ == painted("36"@, msg@, color),
{
    cyan(msg, color)
}

/// `s` right-aligned in a field of at least `w` characters.
pub open spec fn pad_left(s: Seq<char>, w: nat) -> Seq<char> {
    if s.len() >= w {
        s
    } else {
        Seq::new((w - s.len()) as nat, |_i: int| ' ') + s
    }
}

/// The classic menu's line of an account: its number, its email (yellow
/// when stale) and the in-use and needs-login badges.
pub open spec fn account_line_spec(idx: usize, email: Seq<char>, is_current: bool, stale: bool, color: bool) -> Seq<char> {
    let num = painted("2"@, pad_left(text::dec(idx as int), 2) + "."@, color);
    let mail = if stale {
        painted("33"@, email, color)
    } else {
        email
    };
    let badges = (if is_current {
        " "@ + painted("32"@, "● 使用中"@, color)
    } else {
        Seq::empty()
    }) + (if stale {
        " "@ + painted("33"@, "⚠ 需重新登录"@, color)
    } else {
        Seq::empty()
    });
    "  "@ + num + " "@ + mail + badges
}

pub fn account_line(idx: usize, email: &str, is_current: bool, stale: bool, color: bool) -> (r: String)
    ensures
        r@ == account_line_spec(idx, email@, is_current, stale, color),
{
    let digits = text::fmt_u64(idx as u64);
    let mut n = String::new();
    let dc = text::chars_of(digits.as_str());
    if dc.len() < 2 {
        text::push_char(&mut n, ' ');
    }
    text::push_str(&mut n, digits.as_str());
    text::push_str(&mut n, ".");
    proof {
        text::lemma_digits_len(idx as nat);
        if dc@.len() < 2 {
            assert(pad_left(text::dec(idx as int), 2) =~= seq![' '] + digits@);
        } else {
            assert(pad_left(text::dec(idx as int), 2) == digits@);
        }
    }
    let num = dim(n.as_str(), color);
    let mail = if stale {
        yellow(email, color)
    } else {
        text::to_owned(email)
    };
    let mut s = text::cat("  ", num.as_str());
    text::push_str(&mut s, " ");
    text::push_str(&mut s, mail.as_str());
    if is_current {
        text::push_str(&mut s, " ");
        text::push_str(&mut s, green("● 使用中", color).as_str());
    }
    if stale {
        text::push_str(&mut s, " ");
        text::push_str(&mut s, yellow("⚠ 需重新登录", color).as_str());
    }
    s
}

} // verus!
