//! The tray's commands, its menu and tool tip, and its icon pixels. The
//! tray back ends and the window are the caller's.

use crate::quota::Quota;
use crate::text;
use vstd::prelude::*;

verus! {

/// What a tray click asks of the window.
#[derive(Debug, Clone)]
pub enum TrayCmd {
    /// Switch to the account with this id.
    Switch(String),
    ShowWindow,
    Quit,
}

/// A tray menu entry.
#[derive(Debug, Clone)]
pub enum MenuEntry {
    /// An account: its email as the label, checked when in use; choosing
    /// it switches to the id.
    Account { id: String, label: String, checked: bool },
    Separator,
    /// Shows the main window.
    Show,
    /// Quits.
    Quit,
}

/// `e` is the entry of the account `(id, email, in use)`.
pub open spec fn entry_of(e: MenuEntry, item: (String, String, bool)) -> bool {
    e matches MenuEntry::Account { id, label, checked } && id == item.0 && label == item.1
        && checked == item.2
}

/// The menu of accounts `(id, email, in use)`: one checked entry each,
/// a separator when there is any, then show and quit.
pub open spec fn menu_ok(items: Seq<(String, String, bool)>, m: Seq<MenuEntry>) -> bool {
    let n = items.len() as int;
    let extra: int = if n > 0 {
        1
    } else {
        0
    };
    &&& m.len() == n + extra + 2
    &&& forall|i: int|
        0 <= i < n ==> entry_of(#[trigger] m[i], items[i])
    &&& n > 0 ==> m[n] is Separator
    &&& m[n + extra] is Show
    &&& m[n + extra + 1] is Quit
}

/// The tray menu for the accounts `(id, email, in use)`.
pub fn tray_menu(items: &Vec<(String, String, bool)>) -> (r: Vec<MenuEntry>)
    ensures
        menu_ok(items@, r@),
{
    let mut m: Vec<MenuEntry> = Vec::new();
    let mut i: usize = 0;
    while i < items.len()
        invariant
            i <= items.len(),
            m@.len() == i,
            forall|k: int|
                0 <= k < i ==> entry_of(#[trigger] m@[k], items@[k]),
        decreases items.len() - i,
    {
        let (id, email, active) = &items[i];
        m.push(MenuEntry::Account { id: id.clone(), label: email.clone(), checked: *active });
        i = i + 1;
    }
    if items.len() > 0 {
        m.push(MenuEntry::Separator);
    }
    m.push(MenuEntry::Show);
    m.push(MenuEntry::Quit);
    m
}

/// The tool tip's description: the email of the first account in use, or
/// nothing.
pub open spec fn tool_tip_spec(items: Seq<(String, String, bool)>) -> Seq<char>
    decreases items.len(),
{
    if items.len() == 0 {
        Seq::empty()
    } else if items[0].2 {
        items[0].1@
    } else {
        tool_tip_spec(items.drop_first())
    }
}

pub fn tool_tip_text(items: &Vec<(String, String, bool)>) -> (r: String)
    ensures
        r@ == tool_tip_spec(items@),
{
    let mut i: usize = 0;
    assert(items@.subrange(0, items@.len() as int) =~= items@);
    while i < items.len()
        invariant
            i <= items.len(),
            tool_tip_spec(items@) == tool_tip_spec(items@.subrange(i as int, items@.len() as int)),
        decreases items.len() - i,
    {
        assert(items@.subrange(i as int, items@.len() as int).drop_first() =~= items@.subrange(
            i + 1,
            items@.len() as int,
        ));
        if items[i].2 {
            return items[i].1.clone();
        }
        i = i + 1;
    }
    String::new()
}

/// RGBA pixels as ARGB (each pixel's bytes rotated right by one).
pub open spec fn argb_of(rgba: Seq<u8>) -> Seq<u8> {
    Seq::new(
        rgba.len(),
        |i: int|
            if i >= rgba.len() - rgba.len() % 4 {
                rgba[i]
            } else if i % 4 == 0 {
                rgba[i + 3]
            } else {
                rgba[i - 1]
            },
    )
}

/// Converts RGBA pixels to the ARGB order the Linux tray wants; a partial
/// pixel at the end is left as it is.
pub fn icon_argb32(rgba: Vec<u8>) -> (r: Vec<u8>)
    ensures
        r@ == argb_of(rgba@),
{
    let n = rgba.len();
    let whole = n - n % 4;
    let mut out: Vec<u8> = Vec::new();
    let mut i: usize = 0;
    while i < n
        invariant
            i <= n,
            n == rgba@.len(),
            whole == n - n % 4,
            out@.len() == i,
            forall|k: int| 0 <= k < i ==> out@[k] == argb_of(rgba@)[k],
        decreases n - i,
    {
        let b = if i >= whole {
            rgba[i]
        } else if i % 4 == 0 {
            rgba[i + 3]
        } else {
            rgba[i - 1]
        };
        out.push(b);
        i = i + 1;
    }
    assert(out@ =~= argb_of(rgba@));
    out
}

/// What the background worker reports to the window.
pub enum Ev {
    HarvestDone,
    QuotaOne { id: String, res: Result<Quota, String> },
    QuotaDone,
}

/// The main window's state.
pub struct App {
    pub status: String,
}

impl App {
    /// What the window shows: the status, or `就绪` while there is none.
    pub fn status_text(&self) -> (r: String)
        ensures
            r@ == (if self.status@.len() == 0 {
                "就绪"@
            } else {
                self.status@
            }),
    {
        if self.status.as_str().is_empty() {
            text::to_owned("就绪")
        } else {
            self.status.clone()
        }
    }
}

impl Default for App {
    fn default() -> (r: App)
        ensures
            r.status@.len() == 0,
    {
        App { status: String::new() }
    }
}

} // verus!
