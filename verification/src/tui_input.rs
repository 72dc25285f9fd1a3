//! What the terminal UI does with a key press, a chosen palette command and
//! the outcome of the work it hands out: each is a step from one state of
//! [`App`] to the next, with the work the caller has to perform next.

use crate::account::{opt_view, Account};
use crate::quota::Quota;
use crate::text::{self, pop_spec};
use crate::tui::{
    filter_query, filtered_spec, palette_spec, visible_spec, Action, App, LOG_CAP, PALETTE_LEN,
};
use vstd::prelude::*;

verus! {

/// A key press, as far as the UI tells keys apart.
#[derive(Debug, Clone, Copy, PartialEq, Eq, Structural)]
pub enum Key {
    Esc,
    Enter,
    Backspace,
    Up,
    Down,
    Char(char),
    Other,
}

/// The work a step leaves to the caller.
#[derive(Debug)]
pub enum Effect {
    Nothing,
    /// Run a palette command (hand it to [`App::begin_action`]).
    Run(Action),
    /// Switch to the account with this id.
    Switch(String),
    /// Delete the account (id, email).
    Delete(String, String),
    /// Log in a new account through the browser.
    Login,
    /// Log the stale account (id, email) in again.
    Reauth(String, String),
    /// Query the quotas of these accounts (id, email), one after another.
    Query(Vec<(String, String)>),
    Doctor,
    Harvest,
    Update,
}

/// [`Effect`] with its strings as character sequences.
pub enum EffectView {
    Nothing,
    Run(Action),
    Switch(Seq<char>),
    Delete(Seq<char>, Seq<char>),
    Login,
    Reauth(Seq<char>, Seq<char>),
    Query(Seq<(Seq<char>, Seq<char>)>),
    Doctor,
    Harvest,
    Update,
}

impl View for Effect {
    type V = EffectView;

    open spec fn view(&self) -> EffectView {
        match self {
            Effect::Nothing => EffectView::Nothing,
            Effect::Run(a) => EffectView::Run(*a),
            Effect::Switch(id) => EffectView::Switch(id@),
            Effect::Delete(id, email) => EffectView::Delete(id@, email@),
            Effect::Login => EffectView::Login,
            Effect::Reauth(id, email) => EffectView::Reauth(id@, email@),
            Effect::Query(t) => EffectView::Query(t@.map_values(|p: (String, String)| (p.0@, p.1@))),
            Effect::Doctor => EffectView::Doctor,
            Effect::Harvest => EffectView::Harvest,
            Effect::Update => EffectView::Update,
        }
    }
}

/// The UI state with its strings as character sequences.
pub struct UiView {
    pub accounts: Seq<Account>,
    pub current: Option<Seq<char>>,
    pub selected: usize,
    pub filter: Seq<char>,
    pub filtering: bool,
    pub log: Seq<Seq<char>>,
    pub busy: Option<Seq<char>>,
    pub confirm_delete: bool,
    pub doctor_view: Option<(Seq<Seq<char>>, usize)>,
    pub quotas: Seq<(String, Quota)>,
    pub quota_pending: Seq<Seq<char>>,
    pub quota_errors: Seq<(String, String)>,
    pub quota_now: i64,
    pub quota_busy: bool,
    pub log_expanded: bool,
    pub should_quit: bool,
    pub tick: u64,
    pub palette_open: bool,
    pub palette_input: Option<Seq<char>>,
    pub palette_sel: usize,
}

/// The characters of each string.
pub open spec fn lines_view(v: Seq<String>) -> Seq<Seq<char>> {
    v.map_values(|s: String| s@)
}

impl View for App {
    type V = UiView;

    open spec fn view(&self) -> UiView {
        UiView {
            accounts: self.accounts@,
            current: opt_view(self.current),
            selected: self.selected,
            filter: self.filter@,
            filtering: self.filtering,
            log: lines_view(self.log@),
            busy: opt_view(self.busy),
            confirm_delete: self.confirm_delete,
            doctor_view: match self.doctor_view {
                Some((l, s)) => Some((lines_view(l@), s)),
                None => None,
            },
            quotas: self.quotas@,
            quota_pending: lines_view(self.quota_pending@),
            quota_errors: self.quota_errors@,
            quota_now: self.quota_now,
            quota_busy: self.quota_busy,
            log_expanded: self.log_expanded,
            should_quit: self.should_quit,
            tick: self.tick,
            palette_open: self.palette_open,
            palette_input: opt_view(self.palette_input),
            palette_sel: self.palette_sel,
        }
    }
}

/// The log after the line `s`: at most `LOG_CAP` lines, the newest kept.
pub open spec fn log_line(log: Seq<Seq<char>>, s: Seq<char>) -> Seq<Seq<char>> {
    let l = log.push(s);
    if l.len() > LOG_CAP {
        l.subrange(l.len() - LOG_CAP, l.len() as int)
    } else {
        l
    }
}

/// `v` with the line `s` logged.
pub open spec fn with_log(v: UiView, s: Seq<char>) -> UiView {
    UiView { log: log_line(v.log, s), ..v }
}

/// The account the selection points at, among those the filter shows.
pub open spec fn selected_spec(v: UiView) -> Option<Account> {
    let f = filtered_spec(v.accounts, filter_query(v.filter));
    if v.selected < f.len() {
        Some(v.accounts[f[v.selected as int] as int])
    } else {
        None
    }
}

/// One step forward in a cyclic list of `n` entries.
pub open spec fn next_in(i: usize, n: int) -> usize {
    if n > 0 {
        ((i + 1) % n) as usize
    } else {
        i
    }
}

/// One step back in a cyclic list of `n` entries.
pub open spec fn prev_in(i: usize, n: int) -> usize {
    if n > 0 {
        ((i + n - 1) % n) as usize
    } else {
        i
    }
}

/// The palette filter as it is applied.
pub open spec fn palette_query_of(input: Option<Seq<char>>) -> Seq<char> {
    text::query_spec(
        match input {
            Some(s) => s,
            None => Seq::empty(),
        },
    )
}

/// The palette entries shown.
pub open spec fn shown_entries(v: UiView) -> Seq<usize> {
    visible_spec(PALETTE_LEN as int, palette_query_of(v.palette_input))
}

/// Enter in the palette: the highlighted command runs and the palette
/// closes; with nothing highlighted nothing happens.
pub open spec fn palette_choose(v: UiView) -> (UiView, EffectView) {
    let vis = shown_entries(v);
    if v.palette_sel < vis.len() {
        (
            UiView { palette_open: false, palette_input: None, palette_sel: 0, ..v },
            EffectView::Run(palette_spec(vis[v.palette_sel as int] as int).2),
        )
    } else {
        (v, EffectView::Nothing)
    }
}

/// A key while the doctor report is shown: Esc or Enter closes it, j/k or
/// the arrows scroll.
pub open spec fn doctor_key(v: UiView, lines: Seq<Seq<char>>, scroll: usize, k: Key) -> UiView {
    if k == Key::Esc || k == Key::Enter {
        UiView { doctor_view: None, ..v }
    } else if k == Key::Down || k == Key::Char('j') {
        UiView { doctor_view: Some((lines, (scroll + 1) as usize)), ..v }
    } else if k == Key::Up || k == Key::Char('k') {
        UiView { doctor_view: Some((lines, if scroll > 0 { (scroll - 1) as usize } else { 0 })), ..v }
    } else {
        v
    }
}

/// A key while the palette filter is typed: Esc goes back to choosing,
/// Enter runs the highlighted command, other keys edit the filter.
pub open spec fn palette_filter_key(v: UiView, s: Seq<char>, k: Key) -> (UiView, EffectView) {
    if k == Key::Esc {
        (UiView { palette_input: None, palette_sel: 0, ..v }, EffectView::Nothing)
    } else if k == Key::Enter {
        palette_choose(v)
    } else if k == Key::Backspace {
        (UiView { palette_input: Some(pop_spec(s)), palette_sel: 0, ..v }, EffectView::Nothing)
    } else {
        match k {
            Key::Char(c) => (
                UiView { palette_input: Some(s.push(c)), palette_sel: 0, ..v },
                EffectView::Nothing,
            ),
            _ => (v, EffectView::Nothing),
        }
    }
}

/// A key while a palette command is chosen: Esc closes the palette, `/`
/// starts a filter, the arrows move, Enter runs the highlighted command.
pub open spec fn palette_choice_key(v: UiView, k: Key) -> (UiView, EffectView) {
    let n = shown_entries(v).len() as int;
    if k == Key::Esc {
        (UiView { palette_open: false, ..v }, EffectView::Nothing)
    } else if k == Key::Char('/') {
        (UiView { palette_input: Some(Seq::empty()), palette_sel: 0, ..v }, EffectView::Nothing)
    } else if k == Key::Down {
        (UiView { palette_sel: next_in(v.palette_sel, n), ..v }, EffectView::Nothing)
    } else if k == Key::Up {
        (UiView { palette_sel: prev_in(v.palette_sel, n), ..v }, EffectView::Nothing)
    } else if k == Key::Enter {
        palette_choose(v)
    } else {
        (v, EffectView::Nothing)
    }
}

/// A key while a deletion waits for confirmation: `y` deletes the selected
/// account, `n` or Esc cancels.
pub open spec fn confirm_key(v: UiView, k: Key) -> (UiView, EffectView) {
    if k == Key::Char('y') || k == Key::Char('Y') {
        (
            UiView { confirm_delete: false, ..v },
            match selected_spec(v) {
                Some(a) => EffectView::Delete(a.id@, a.email@),
                None => EffectView::Nothing,
            },
        )
    } else if k == Key::Char('n') || k == Key::Char('N') || k == Key::Esc {
        (UiView { confirm_delete: false, ..v }, EffectView::Nothing)
    } else {
        (v, EffectView::Nothing)
    }
}

/// A key while the account filter is typed.
pub open spec fn filter_key(v: UiView, k: Key) -> UiView {
    if k == Key::Esc || k == Key::Enter {
        UiView { filtering: false, ..v }
    } else if k == Key::Backspace {
        UiView { filter: pop_spec(v.filter), selected: 0, ..v }
    } else {
        match k {
            Key::Char(c) => UiView { filter: v.filter.push(c), selected: 0, ..v },
            _ => v,
        }
    }
}

/// Enter on the account list: a stale account is pointed at the palette,
/// the account in use needs no switch, a running quota query holds the
/// switch back; otherwise the switch starts.
pub open spec fn enter_key(v: UiView) -> (UiView, EffectView) {
    match selected_spec(v) {
        Some(a) => if a.stale {
            (with_log(v, "⚠ "@ + a.email@ + " 已失效，用命令面板（:）选「复活账号」"@), EffectView::Nothing)
        } else if v.current == Some(a.id@) {
            (with_log(v, "ℹ "@ + a.email@ + " 已是使用中的账号，无需切换"@), EffectView::Nothing)
        } else if v.quota_busy {
            (
                with_log(v, "ℹ 配额查询期间可继续浏览；请等待查询结束后再切换账号"@),
                EffectView::Nothing,
            )
        } else {
            (UiView { busy: Some("切换到 "@ + a.email@ + "…"@), ..v }, EffectView::Switch(a.id@))
        },
        None => (v, EffectView::Nothing),
    }
}

/// A key on the account list.
pub open spec fn list_key(v: UiView, k: Key) -> (UiView, EffectView) {
    let n = filtered_spec(v.accounts, filter_query(v.filter)).len() as int;
    if k == Key::Char('q') || k == Key::Char('Q') {
        (UiView { should_quit: true, ..v }, EffectView::Nothing)
    } else if k == Key::Down || k == Key::Char('j') {
        (UiView { selected: next_in(v.selected, n), ..v }, EffectView::Nothing)
    } else if k == Key::Up || k == Key::Char('k') {
        (UiView { selected: prev_in(v.selected, n), ..v }, EffectView::Nothing)
    } else if k == Key::Char('/') {
        (UiView { filtering: true, filter: Seq::empty(), selected: 0, ..v }, EffectView::Nothing)
    } else if k == Key::Char(':') {
        (UiView { palette_open: true, palette_input: None, palette_sel: 0, ..v }, EffectView::Nothing)
    } else if k == Key::Char('l') || k == Key::Char('L') {
        (UiView { log_expanded: !v.log_expanded, ..v }, EffectView::Nothing)
    } else if k == Key::Enter {
        enter_key(v)
    } else {
        (v, EffectView::Nothing)
    }
}

/// What a key press does: the doctor report, the palette, a pending
/// deletion and the account filter each take the keys while they are open;
/// while work runs only `q` is heard.
pub open spec fn key_step(v: UiView, k: Key) -> (UiView, EffectView) {
    match v.doctor_view {
        Some((lines, scroll)) => (doctor_key(v, lines, scroll, k), EffectView::Nothing),
        None => if v.palette_open {
            match v.palette_input {
                Some(s) => palette_filter_key(v, s, k),
                None => palette_choice_key(v, k),
            }
        } else if v.confirm_delete {
            confirm_key(v, k)
        } else if v.filtering {
            (filter_key(v, k), EffectView::Nothing)
        } else if v.busy is Some {
            if k == Key::Char('q') || k == Key::Char('Q') {
                (UiView { should_quit: true, ..v }, EffectView::Nothing)
            } else {
                (v, EffectView::Nothing)
            }
        } else {
            list_key(v, k)
        },
    }
}

/// The stale accounts, as (id, email), in library order.
pub open spec fn stale_list(accs: Seq<Account>) -> Seq<(Seq<char>, Seq<char>)>
    decreases accs.len(),
{
    if accs.len() == 0 {
        Seq::empty()
    } else if accs.last().stale {
        stale_list(accs.drop_last()).push((accs.last().id@, accs.last().email@))
    } else {
        stale_list(accs.drop_last())
    }
}

/// The account to log in again: the selected one when it is stale, else
/// the only stale account, if there is exactly one.
pub open spec fn reauth_target(v: UiView) -> Option<(Seq<char>, Seq<char>)> {
    let s = stale_list(v.accounts);
    match selected_spec(v) {
        Some(a) if a.stale => Some((a.id@, a.email@)),
        _ => if s.len() == 1 {
            Some(s[0])
        } else {
            None
        },
    }
}

/// The pending set after the ids of `t` join it, in order.
pub open spec fn mark_pending(p: Seq<Seq<char>>, t: Seq<(Seq<char>, Seq<char>)>) -> Seq<Seq<char>>
    decreases t.len(),
{
    if t.len() == 0 {
        p
    } else {
        let q = mark_pending(p, t.drop_last());
        if q.contains(t.last().0) {
            q
        } else {
            q.push(t.last().0)
        }
    }
}

/// The query errors without those of the ids of `t`.
pub open spec fn clear_errors(e: Seq<(String, String)>, t: Seq<(Seq<char>, Seq<char>)>) -> Seq<
    (String, String),
>
    decreases t.len(),
{
    if t.len() == 0 {
        e
    } else {
        crate::tui::without_key(clear_errors(e, t.drop_last()), t.last().0)
    }
}

/// A quota query of `t` starts: the accounts become pending, their old
/// errors go, and `line` is logged.
pub open spec fn start_queries(v: UiView, t: Seq<(Seq<char>, Seq<char>)>, line: Seq<char>) -> (
    UiView,
    EffectView,
) {
    (
        with_log(
            UiView {
                quota_busy: true,
                quota_pending: mark_pending(v.quota_pending, t),
                quota_errors: clear_errors(v.quota_errors, t),
                ..v
            },
            line,
        ),
        EffectView::Query(t),
    )
}

/// What a palette command does before its work starts. While quotas are
/// queried only the quota commands and the doctor run.
pub open spec fn action_step(v: UiView, a: Action) -> (UiView, EffectView) {
    if v.quota_busy && !(a == Action::QuotaCurrent || a == Action::QuotaAll || a == Action::Doctor) {
        (with_log(v, "ℹ 配额查询期间可继续浏览；写操作请等待查询结束"@), EffectView::Nothing)
    } else {
        match a {
            Action::Add => (v, EffectView::Login),
            Action::Reauth => match reauth_target(v) {
                Some((id, email)) => (v, EffectView::Reauth(id, email)),
                None => (
                    with_log(v, "ℹ 没有可复活账号（选中带 ⚠ 的账号，或确保只有一个失效账号）"@),
                    EffectView::Nothing,
                ),
            },
            Action::Delete => match selected_spec(v) {
                Some(acc) => if v.current == Some(acc.id@) {
                    (
                        with_log(v, "⚠ "@ + acc.email@ + " 正在使用中，无法删除；请先切换到其他账号"@),
                        EffectView::Nothing,
                    )
                } else {
                    (UiView { confirm_delete: true, ..v }, EffectView::Nothing)
                },
                None => (with_log(v, "ℹ 没有选中账号"@), EffectView::Nothing),
            },
            Action::QuotaCurrent => if v.quota_busy {
                (with_log(v, "ℹ 配额查询正在进行中"@), EffectView::Nothing)
            } else {
                match selected_spec(v) {
                    Some(acc) if !acc.stale => start_queries(
                        v,
                        seq![(acc.id@, acc.email@)],
                        "开始查询 "@ + acc.email@ + " 的配额…"@,
                    ),
                    _ => (with_log(v, "ℹ 选中账号已失效或不存在，无法查询配额"@), EffectView::Nothing),
                }
            },
            Action::QuotaAll => if v.quota_busy {
                (with_log(v, "ℹ 配额查询正在进行中"@), EffectView::Nothing)
            } else {
                let t = crate::tui::quota_targets_spec(v.accounts);
                if t.len() == 0 {
                    (with_log(v, "ℹ 没有可查的账号"@), EffectView::Nothing)
                } else {
                    start_queries(v, t, "开始查询 "@ + text::dec(t.len() as int) + " 个账号配额…"@)
                }
            },
            Action::Doctor => (v, EffectView::Doctor),
            Action::Harvest => (v, EffectView::Harvest),
            Action::Update => (UiView { busy: Some("检查更新中…"@), ..v }, EffectView::Update),
        }
    }
}

/// The note logged after a change while Codex runs.
pub open spec fn codex_note() -> Seq<char> {
    "ℹ 检测到 Codex 正在运行，请重启 Codex 生效"@
}

/// `v` with `line` logged, and the Codex note after it when Codex runs.
pub open spec fn with_note(v: UiView, line: Seq<char>, codex_running: bool) -> UiView {
    let w = with_log(v, line);
    if codex_running {
        with_log(w, codex_note())
    } else {
        w
    }
}

/// The line logged after a re-login: the account in use stays as it was.
pub open spec fn reauth_line(email: Seq<char>, is_current: bool) -> Seq<char> {
    "✅ 已重新登录: "@ + email + if is_current {
        "（使用中账号的凭据已同步）"@
    } else {
        "（当前账号未改变）"@
    }
}

/// The log line that ends a quota query.
pub open spec fn quotas_done_line(r: Option<crate::recommendation::Recommendation>) -> Seq<char> {
    match r {
        Some(rec) => if rec.reason == crate::recommendation::Reason::KeepCurrent {
            "✅ 配额查询完成；建议继续使用 "@ + rec.email@ + "（周剩余 "@ + text::dec(
                rec.weekly_remaining as int,
            ) + "%）"@
        } else {
            "✅ 配额查询完成；建议使用 "@ + rec.email@ + "（周剩余 "@ + text::dec(
                rec.weekly_remaining as int,
            ) + "%）"@
        },
        None => "✅ 配额查询完成；暂无可用建议"@,
    }
}

/// The log line after a harvest.
pub open spec fn harvest_line(res: Result<(usize, bool), String>) -> Seq<char> {
    match res {
        Ok((n, changed)) => "✅ 已从官方 auth.json 收敛（"@ + text::dec(n as int) + " 个账号"@ + (if changed {
            "，有更新"@
        } else {
            Seq::empty()
        }) + "）"@,
        Err(e) => "✗ 收敛失败："@ + e@,
    }
}

/// The log line after an update check.
pub open spec fn update_line(res: Result<Option<String>, String>) -> Seq<char> {
    match res {
        Ok(Some(v)) => "✅ 已升级到 "@ + v@ + "，请重启 hangar 生效"@,
        Ok(None) => "已是最新版本"@,
        Err(e) => "✗ 更新失败："@ + e@ + "（旧版继续可用）"@,
    }
}

/// The UI's state when it starts: an empty library, one line of help in
/// the log.
pub open spec fn initial_view(now: i64) -> UiView {
    UiView {
        accounts: Seq::empty(),
        current: None,
        selected: 0,
        filter: Seq::empty(),
        filtering: false,
        log: seq!["就绪：: 打开命令面板（登录/复活/删除/配额/自检），60s 自动收敛"@],
        busy: None,
        confirm_delete: false,
        doctor_view: None,
        quotas: Seq::empty(),
        quota_pending: Seq::empty(),
        quota_errors: Seq::empty(),
        quota_now: now,
        quota_busy: false,
        log_expanded: false,
        should_quit: false,
        tick: 0,
        palette_open: false,
        palette_input: None,
        palette_sel: 0,
    }
}

/// While work runs and nothing overlays the list, every key but `q` is
/// ignored.
pub proof fn law_busy_ignores_keys(v: UiView, k: Key)
    requires
        v.doctor_view is None,
        !v.palette_open,
        !v.confirm_delete,
        !v.filtering,
        v.busy is Some,
        k != Key::Char('q') && k != Key::Char('Q'),
    ensures
        key_step(v, k) == (v, EffectView::Nothing),
{
}

/// A key starts a switch only on Enter, on the account list, for the
/// selected account, and only when that account is usable, not the one in
/// use, and no quota query runs; the UI is then busy.
pub proof fn law_switch_only_to_another_usable_account(v: UiView, k: Key)
    requires
        key_step(v, k).1 is Switch,
    ensures
        k == Key::Enter,
        v.doctor_view is None && !v.palette_open && !v.confirm_delete && !v.filtering,
        v.busy is None,
        !v.quota_busy,
        selected_spec(v) matches Some(a) && !a.stale && v.current != Some(a.id@) && key_step(v, k).1
            == EffectView::Switch(a.id@),
        key_step(v, k).0.busy is Some,
{
}

/// A deletion is only ever asked for from the confirmation dialog, with `y`,
/// and for the selected account.
pub proof fn law_delete_needs_confirmation(v: UiView, k: Key)
    requires
        key_step(v, k).1 is Delete,
    ensures
        v.confirm_delete,
        k == Key::Char('y') || k == Key::Char('Y'),
        selected_spec(v) matches Some(a) && key_step(v, k).1 == EffectView::Delete(a.id@, a.email@),
        !key_step(v, k).0.confirm_delete,
{
}

/// The palette's delete command never opens the confirmation for the
/// account in use.
pub proof fn law_account_in_use_is_never_offered_for_deletion(v: UiView)
    requires
        !v.confirm_delete,
        action_step(v, Action::Delete).0.confirm_delete,
    ensures
        selected_spec(v) matches Some(a) && v.current != Some(a.id@),
        action_step(v, Action::Delete).1 == EffectView::Nothing,
{
}

/// While quotas are queried, commands that write wait: only the quota
/// commands and the doctor start work.
pub proof fn law_writes_wait_for_quota_queries(v: UiView, a: Action)
    requires
        v.quota_busy,
        a != Action::QuotaCurrent && a != Action::QuotaAll && a != Action::Doctor,
    ensures
        action_step(v, a).1 == EffectView::Nothing,
        action_step(v, a).0 == with_log(v, "ℹ 配额查询期间可继续浏览；写操作请等待查询结束"@),
{
}

/// Without a filter the palette shows every command, in order.
pub proof fn law_unfiltered_palette_shows_every_command()
    ensures
        visible_spec(PALETTE_LEN as int, palette_query_of(None)) == Seq::new(
            PALETTE_LEN as nat,
            |i: int| i as usize,
        ),
{
    assert(text::query_spec(Seq::empty()) =~= Seq::<char>::empty());
    lemma_all_visible(PALETTE_LEN as int);
    assert(visible_spec(PALETTE_LEN as int, Seq::empty()) =~= Seq::new(
        PALETTE_LEN as nat,
        |i: int| i as usize,
    ));
}

proof fn lemma_all_visible(n: int)
    requires
        0 <= n,
    ensures
        visible_spec(n, Seq::empty()).len() == n,
        forall|i: int| 0 <= i < n ==> visible_spec(n, Seq::empty())[i] == i as usize,
    decreases n,
{
    if n > 0 {
        lemma_all_visible(n - 1);
    }
}

/// The selection points into the filtered account list, or is 0 when the
/// list is empty.
pub open spec fn selection_ok(v: UiView) -> bool {
    let n = filtered_spec(v.accounts, filter_query(v.filter)).len();
    v.selected < n || v.selected == 0
}

/// No key moves the selection out of the filtered account list: moves wrap
/// around it and a changed filter starts again at its top.
pub proof fn law_keys_keep_the_selection_in_the_list(v: UiView, k: Key)
    requires
        selection_ok(v),
    ensures
        selection_ok(key_step(v, k).0),
{
    let n = filtered_spec(v.accounts, filter_query(v.filter)).len() as int;
    if n > 0 {
        assert((v.selected + 1) % n < n) by (nonlinear_arith)
            requires
                n > 0,
        ;
        assert((v.selected + n - 1) % n < n) by (nonlinear_arith)
            requires
                n > 0,
        ;
    }
}

/// The log never holds more than `LOG_CAP` lines, and its last line is the
/// one logged last.
pub proof fn law_log_is_capped(log: Seq<Seq<char>>, s: Seq<char>)
    requires
        log.len() <= LOG_CAP,
    ensures
        log_line(log, s).len() <= LOG_CAP,
        log_line(log, s).last() == s,
        log.len() < LOG_CAP ==> log_line(log, s) == log.push(s),
{
}

/// The log as its lines' characters, after `s` is logged.
proof fn lemma_logged_view(log: Seq<String>, s: String)
    ensures
        lines_view(crate::tui::logged(log, s)) == log_line(lines_view(log), s@),
{
    let l = log.push(s);
    assert(lines_view(l) =~= lines_view(log).push(s@));
    if l.len() > LOG_CAP {
        assert(lines_view(l.subrange(l.len() - LOG_CAP, l.len() as int)) =~= lines_view(l).subrange(
            l.len() - LOG_CAP,
            l.len() as int,
        ));
    }
}

proof fn lemma_visible_bounds(n: int, q: Seq<char>)
    ensures
        visible_spec(n, q).len() <= if n > 0 { n } else { 0 },
        forall|j: int| 0 <= j < visible_spec(n, q).len() ==> (#[trigger] visible_spec(n, q)[j]) < n,
    decreases n,
{
    if n > 0 {
        lemma_visible_bounds(n - 1, q);
    }
}

fn next_index(i: usize, n: usize) -> (r: usize)
    ensures
        r == next_in(i, n as int),
{
    if n == 0 {
        return i;
    }
    let s = i % n;
    proof {
        assert(((i % n) + 1) % (n as int) == (i + 1) % (n as int)) by {
            vstd::arithmetic::div_mod::lemma_add_mod_noop(i as int, 1, n as int);
            vstd::arithmetic::div_mod::lemma_mod_twice(i as int, n as int);
            vstd::arithmetic::div_mod::lemma_add_mod_noop((i % n) as int, 1, n as int);
        }
    }
    if s + 1 == n {
        proof {
            vstd::arithmetic::div_mod::lemma_mod_self_0(n as int);
        }
        0
    } else {
        proof {
            vstd::arithmetic::div_mod::lemma_small_mod((s + 1) as nat, n as nat);
        }
        s + 1
    }
}

fn prev_index(i: usize, n: usize) -> (r: usize)
    ensures
        r == prev_in(i, n as int),
{
    if n == 0 {
        return i;
    }
    let s = i % n;
    proof {
        assert((i + n - 1) % (n as int) == ((i % n) + n - 1) % (n as int)) by {
            vstd::arithmetic::div_mod::lemma_add_mod_noop(i as int, n - 1, n as int);
            vstd::arithmetic::div_mod::lemma_mod_twice(i as int, n as int);
            vstd::arithmetic::div_mod::lemma_add_mod_noop((i % n) as int, n - 1, n as int);
        }
        vstd::arithmetic::div_mod::lemma_mod_bound(i as int, n as int);
    }
    if s == 0 {
        proof {
            vstd::arithmetic::div_mod::lemma_small_mod((n - 1) as nat, n as nat);
        }
        n - 1
    } else {
        proof {
            vstd::arithmetic::div_mod::lemma_mod_add_multiples_vanish((s - 1) as int, n as int);
            vstd::arithmetic::div_mod::lemma_small_mod((s - 1) as nat, n as nat);
        }
        s - 1
    }
}

impl App {
    /// Logs a line.
    fn log(&mut self, s: String)
        ensures
            final(self)@ == with_log(old(self)@, s@),
    {
        let ghost sv = s;
        self.push_log(s);
        proof {
            lemma_logged_view(old(self).log@, sv);
        }
    }

    fn doctor_step(&mut self, k: Key)
        requires
            old(self).doctor_view matches Some((_l, s)) && s < usize::MAX,
        ensures
            match old(self)@.doctor_view {
                Some((lines, scroll)) => final(self)@ == doctor_key(old(self)@, lines, scroll, k),
                None => false,
            },
    {
        if k == Key::Esc || k == Key::Enter {
            self.doctor_view = None;
        } else if k == Key::Down || k == Key::Char('j') {
            match self.doctor_view.take() {
                Some((l, s)) => {
                    self.doctor_view = Some((l, s + 1));
                },
                None => {},
            }
        } else if k == Key::Up || k == Key::Char('k') {
            match self.doctor_view.take() {
                Some((l, s)) => {
                    self.doctor_view = Some((l, if s > 0 { s - 1 } else { 0 }));
                },
                None => {},
            }
        }
    }

    fn palette_choose(&mut self) -> (r: Effect)
        ensures
            (final(self)@, r@) == palette_choose(old(self)@),
    {
        let vis = self.palette_visible();
        proof {
            lemma_visible_bounds(PALETTE_LEN as int, palette_query_of(self@.palette_input));
        }
        if self.palette_sel < vis.len() {
            let i = vis[self.palette_sel];
            let action = crate::tui::palette_item(i).action;
            self.palette_open = false;
            self.palette_input = None;
            self.palette_sel = 0;
            Effect::Run(action)
        } else {
            Effect::Nothing
        }
    }

    fn palette_filter_step(&mut self, k: Key) -> (r: Effect)
        requires
            old(self).palette_input is Some,
        ensures
            match old(self)@.palette_input {
                Some(s) => (final(self)@, r@) == palette_filter_key(old(self)@, s, k),
                None => false,
            },
    {
        if k == Key::Esc {
            self.palette_input = None;
            self.palette_sel = 0;
            Effect::Nothing
        } else if k == Key::Enter {
            self.palette_choose()
        } else if k == Key::Backspace {
            let mut s = match self.palette_input.take() {
                Some(s) => s,
                None => String::new(),
            };
            text::pop_char(&mut s);
            self.palette_input = Some(s);
            self.palette_sel = 0;
            Effect::Nothing
        } else {
            match k {
                Key::Char(c) => {
                    let mut s = match self.palette_input.take() {
                        Some(s) => s,
                        None => String::new(),
                    };
                    text::push_char(&mut s, c);
                    self.palette_input = Some(s);
                    self.palette_sel = 0;
                },
                _ => {},
            }
            Effect::Nothing
        }
    }

    fn palette_choice_step(&mut self, k: Key) -> (r: Effect)
        ensures
            (final(self)@, r@) == palette_choice_key(old(self)@, k),
    {
        if k == Key::Esc {
            self.palette_open = false;
            Effect::Nothing
        } else if k == Key::Char('/') {
            self.palette_input = Some(String::new());
            self.palette_sel = 0;
            Effect::Nothing
        } else if k == Key::Down || k == Key::Up {
            let vis = self.palette_visible();
            if k == Key::Down {
                self.palette_sel = next_index(self.palette_sel, vis.len());
            } else {
                self.palette_sel = prev_index(self.palette_sel, vis.len());
            }
            Effect::Nothing
        } else if k == Key::Enter {
            self.palette_choose()
        } else {
            Effect::Nothing
        }
    }

    fn confirm_step(&mut self, k: Key) -> (r: Effect)
        ensures
            (final(self)@, r@) == confirm_key(old(self)@, k),
    {
        if k == Key::Char('y') || k == Key::Char('Y') {
            let target = match self.selected_account() {
                Some(a) => Effect::Delete(a.id.clone(), a.email.clone()),
                None => Effect::Nothing,
            };
            self.confirm_delete = false;
            target
        } else if k == Key::Char('n') || k == Key::Char('N') || k == Key::Esc {
            self.confirm_delete = false;
            Effect::Nothing
        } else {
            Effect::Nothing
        }
    }

    fn filter_step(&mut self, k: Key)
        ensures
            final(self)@ == filter_key(old(self)@, k),
    {
        if k == Key::Esc || k == Key::Enter {
            self.filtering = false;
        } else if k == Key::Backspace {
            text::pop_char(&mut self.filter);
            self.selected = 0;
        } else {
            match k {
                Key::Char(c) => {
                    text::push_char(&mut self.filter, c);
                    self.selected = 0;
                },
                _ => {},
            }
        }
    }

    fn enter_step(&mut self) -> (r: Effect)
        ensures
            (final(self)@, r@) == enter_key(old(self)@),
    {
        let picked = match self.selected_account() {
            Some(a) => Some((a.id.clone(), a.email.clone(), a.stale)),
            None => None,
        };
        match picked {
            Some((id, email, stale)) => {
                let is_current = match &self.current {
                    Some(c) => text::str_eq(c.as_str(), id.as_str()),
                    None => false,
                };
                if stale {
                    let mut line = text::cat("⚠ ", email.as_str());
                    text::push_str(&mut line, " 已失效，用命令面板（:）选「复活账号」");
                    self.log(line);
                    Effect::Nothing
                } else if is_current {
                    let mut line = text::cat("ℹ ", email.as_str());
                    text::push_str(&mut line, " 已是使用中的账号，无需切换");
                    self.log(line);
                    Effect::Nothing
                } else if self.quota_busy {
                    self.log(text::to_owned("ℹ 配额查询期间可继续浏览；请等待查询结束后再切换账号"));
                    Effect::Nothing
                } else {
                    let mut b = text::cat("切换到 ", email.as_str());
                    text::push_str(&mut b, "…");
                    self.busy = Some(b);
                    Effect::Switch(id)
                }
            },
            None => Effect::Nothing,
        }
    }

    fn list_step(&mut self, k: Key) -> (r: Effect)
        ensures
            (final(self)@, r@) == list_key(old(self)@, k),
    {
        if k == Key::Char('q') || k == Key::Char('Q') {
            self.should_quit = true;
            Effect::Nothing
        } else if k == Key::Down || k == Key::Char('j') {
            let n = self.filtered().len();
            self.selected = next_index(self.selected, n);
            Effect::Nothing
        } else if k == Key::Up || k == Key::Char('k') {
            let n = self.filtered().len();
            self.selected = prev_index(self.selected, n);
            Effect::Nothing
        } else if k == Key::Char('/') {
            self.filtering = true;
            self.filter = String::new();
            self.selected = 0;
            Effect::Nothing
        } else if k == Key::Char(':') {
            self.palette_open = true;
            self.palette_input = None;
            self.palette_sel = 0;
            Effect::Nothing
        } else if k == Key::Char('l') || k == Key::Char('L') {
            self.log_expanded = !self.log_expanded;
            Effect::Nothing
        } else if k == Key::Enter {
            self.enter_step()
        } else {
            Effect::Nothing
        }
    }

    /// A key press: the state moves on as [`key_step`] says, and the work
    /// it leaves is returned.
    pub fn on_key(&mut self, k: Key) -> (r: Effect)
        requires
            old(self).doctor_view matches Some((_l, s)) ==> s < usize::MAX,
        ensures
            (final(self)@, r@) == key_step(old(self)@, k),
    {
        if self.doctor_view.is_some() {
            self.doctor_step(k);
            Effect::Nothing
        } else if self.palette_open {
            if self.palette_input.is_some() {
                self.palette_filter_step(k)
            } else {
                self.palette_choice_step(k)
            }
        } else if self.confirm_delete {
            self.confirm_step(k)
        } else if self.filtering {
            self.filter_step(k);
            Effect::Nothing
        } else if self.busy.is_some() {
            if k == Key::Char('q') || k == Key::Char('Q') {
                self.should_quit = true;
            }
            Effect::Nothing
        } else {
            self.list_step(k)
        }
    }
}

fn insert_pending(v: &mut Vec<String>, id: &str)
    ensures
        lines_view(final(v)@) == (if lines_view(old(v)@).contains(id@) {
            lines_view(old(v)@)
        } else {
            lines_view(old(v)@).push(id@)
        }),
{
    let mut i: usize = 0;
    while i < v.len()
        invariant
            i <= v.len(),
            v@ == old(v)@,
            forall|j: int| 0 <= j < i ==> (#[trigger] v@[j])@ != id@,
        decreases v.len() - i,
    {
        if text::str_eq(v[i].as_str(), id) {
            assert(lines_view(v@)[i as int] == id@);
            return ;
        }
        i = i + 1;
    }
    assert(!lines_view(v@).contains(id@)) by {
        if lines_view(v@).contains(id@) {
            let j = choose|j: int| 0 <= j < lines_view(v@).len() && lines_view(v@)[j] == id@;
            assert(v@[j]@ == id@);
        }
    }
    let ghost before = v@;
    v.push(text::to_owned(id));
    assert(lines_view(v@) =~= lines_view(before).push(id@));
}

fn stale_accounts(accs: &Vec<Account>) -> (r: Vec<(String, String)>)
    ensures
        r@.map_values(|p: (String, String)| (p.0@, p.1@)) == stale_list(accs@),
{
    let mut out: Vec<(String, String)> = Vec::new();
    let mut i: usize = 0;
    while i < accs.len()
        invariant
            i <= accs.len(),
            out@.map_values(|p: (String, String)| (p.0@, p.1@)) == stale_list(accs@.subrange(0, i as int)),
        decreases accs.len() - i,
    {
        let ghost pre = accs@.subrange(0, i as int);
        assert(accs@.subrange(0, i + 1).drop_last() =~= pre);
        let a = &accs[i];
        if a.stale {
            out.push((a.id.clone(), a.email.clone()));
            assert(out@.map_values(|p: (String, String)| (p.0@, p.1@)) =~= stale_list(pre).push(
                (a.id@, a.email@),
            ));
        }
        i = i + 1;
    }
    assert(accs@.subrange(0, accs@.len() as int) =~= accs@);
    out
}

impl App {
    /// The UI's state when it starts.
    pub fn new(now: i64) -> (r: App)
        ensures
            r@ == initial_view(now),
    {
        let mut log: Vec<String> = Vec::new();
        log.push(text::to_owned("就绪：: 打开命令面板（登录/复活/删除/配额/自检），60s 自动收敛"));
        let r = App {
            accounts: Vec::new(),
            current: None,
            selected: 0,
            filter: String::new(),
            filtering: false,
            log,
            busy: None,
            confirm_delete: false,
            doctor_view: None,
            quotas: Vec::new(),
            quota_pending: Vec::new(),
            quota_errors: Vec::new(),
            quota_now: now,
            quota_busy: false,
            log_expanded: false,
            should_quit: false,
            tick: 0,
            palette_open: false,
            palette_input: None,
            palette_sel: 0,
        };
        assert(r@.log =~= initial_view(now).log);
        assert(r@.quota_pending =~= Seq::<Seq<char>>::empty());
        r
    }

    fn start(&mut self, targets: Vec<(String, String)>, line: String) -> (r: Effect)
        ensures
            (final(self)@, r@) == start_queries(
                old(self)@,
                targets@.map_values(|p: (String, String)| (p.0@, p.1@)),
                line@,
            ),
    {
        let ghost t = targets@.map_values(|p: (String, String)| (p.0@, p.1@));
        let ghost v0 = self@;
        self.quota_busy = true;
        let mut i: usize = 0;
        while i < targets.len()
            invariant
                i <= targets.len(),
                t == targets@.map_values(|p: (String, String)| (p.0@, p.1@)),
                self@ == (UiView {
                    quota_busy: true,
                    quota_pending: mark_pending(v0.quota_pending, t.subrange(0, i as int)),
                    quota_errors: clear_errors(v0.quota_errors, t.subrange(0, i as int)),
                    ..v0
                }),
            decreases targets.len() - i,
        {
            assert(t.subrange(0, i + 1).drop_last() =~= t.subrange(0, i as int));
            let id = targets[i].0.as_str();
            insert_pending(&mut self.quota_pending, id);
            crate::tui::remove_key(&mut self.quota_errors, id);
            i = i + 1;
        }
        assert(t.subrange(0, t.len() as int) =~= t);
        self.log(line);
        Effect::Query(targets)
    }

    /// A palette command: the state moves on as [`action_step`] says, and
    /// the work the command needs is returned.
    pub fn begin_action(&mut self, a: Action) -> (r: Effect)
        ensures
            (final(self)@, r@) == action_step(old(self)@, a),
    {
        if self.quota_busy && !(a == Action::QuotaCurrent || a == Action::QuotaAll || a
            == Action::Doctor) {
            self.log(text::to_owned("ℹ 配额查询期间可继续浏览；写操作请等待查询结束"));
            return Effect::Nothing;
        }
        match a {
            Action::Add => Effect::Login,
            Action::Reauth => {
                let sel = match self.selected_account() {
                    Some(acc) => Some((acc.id.clone(), acc.email.clone(), acc.stale)),
                    None => None,
                };
                let stales = stale_accounts(&self.accounts);
                let target = match sel {
                    Some((id, email, true)) => Some((id, email)),
                    _ => if stales.len() == 1 {
                        Some((stales[0].0.clone(), stales[0].1.clone()))
                    } else {
                        None
                    },
                };
                match target {
                    Some((id, email)) => Effect::Reauth(id, email),
                    None => {
                        self.log(
                            text::to_owned(
                                "ℹ 没有可复活账号（选中带 ⚠ 的账号，或确保只有一个失效账号）",
                            ),
                        );
                        Effect::Nothing
                    },
                }
            },
            Action::Delete => {
                let sel = match self.selected_account() {
                    Some(acc) => Some((acc.id.clone(), acc.email.clone())),
                    None => None,
                };
                match sel {
                    Some((id, email)) => {
                        let is_current = match &self.current {
                            Some(c) => text::str_eq(c.as_str(), id.as_str()),
                            None => false,
                        };
                        if is_current {
                            let mut line = text::cat("⚠ ", email.as_str());
                            text::push_str(&mut line, " 正在使用中，无法删除；请先切换到其他账号");
                            self.log(line);
                        } else {
                            self.confirm_delete = true;
                        }
                    },
                    None => {
                        self.log(text::to_owned("ℹ 没有选中账号"));
                    },
                }
                Effect::Nothing
            },
            Action::QuotaCurrent => {
                if self.quota_busy {
                    self.log(text::to_owned("ℹ 配额查询正在进行中"));
                    return Effect::Nothing;
                }
                let sel = match self.selected_account() {
                    Some(acc) => Some((acc.id.clone(), acc.email.clone(), acc.stale)),
                    None => None,
                };
                match sel {
                    Some((id, email, false)) => {
                        let mut line = text::cat("开始查询 ", email.as_str());
                        text::push_str(&mut line, " 的配额…");
                        let mut targets: Vec<(String, String)> = Vec::new();
                        targets.push((id, email));
                        assert(targets@.map_values(|p: (String, String)| (p.0@, p.1@)) =~= seq![
                            (id@, email@),
                        ]);
                        self.start(targets, line)
                    },
                    _ => {
                        self.log(text::to_owned("ℹ 选中账号已失效或不存在，无法查询配额"));
                        Effect::Nothing
                    },
                }
            },
            Action::QuotaAll => {
                if self.quota_busy {
                    self.log(text::to_owned("ℹ 配额查询正在进行中"));
                    return Effect::Nothing;
                }
                let targets = self.quota_targets();
                if targets.len() == 0 {
                    self.log(text::to_owned("ℹ 没有可查的账号"));
                    Effect::Nothing
                } else {
                    let mut line = text::cat("开始查询 ", text::fmt_u64(targets.len() as u64).as_str());
                    text::push_str(&mut line, " 个账号配额…");
                    self.start(targets, line)
                }
            },
            Action::Doctor => Effect::Doctor,
            Action::Harvest => Effect::Harvest,
            Action::Update => {
                self.busy = Some(text::to_owned("检查更新中…"));
                Effect::Update
            },
        }
    }

    /// Queries every healthy account's quota when the UI starts; nothing
    /// when there is none.
    pub fn start_startup_queries(&mut self) -> (r: Effect)
        ensures
            ({
                let t = crate::tui::quota_targets_spec(old(self)@.accounts);
                if t.len() == 0 {
                    final(self)@ == old(self)@ && r@ == EffectView::Nothing
                } else {
                    (final(self)@, r@) == start_queries(
                        old(self)@,
                        t,
                        "开始查询 "@ + text::dec(t.len() as int) + " 个账号的周剩余…"@,
                    )
                }
            }),
    {
        let targets = self.quota_targets();
        if targets.len() == 0 {
            Effect::Nothing
        } else {
            let mut line = text::cat("开始查询 ", text::fmt_u64(targets.len() as u64).as_str());
            text::push_str(&mut line, " 个账号的周剩余…");
            self.start(targets, line)
        }
    }

    /// A switch finished: the UI is free again and the outcome is logged.
    pub fn switch_done(&mut self, email: &str, res: Result<(), String>, codex_running: bool)
        ensures
            final(self)@ == (match res {
                Ok(()) => with_note(UiView { busy: None, ..old(self)@ }, "✅ 已切换到: "@ + email@, codex_running),
                Err(e) => with_log(UiView { busy: None, ..old(self)@ }, "✗ "@ + e@),
            }),
    {
        self.busy = None;
        match res {
            Ok(()) => {
                self.log(text::cat("✅ 已切换到: ", email));
                if codex_running {
                    self.log(text::to_owned("ℹ 检测到 Codex 正在运行，请重启 Codex 生效"));
                }
            },
            Err(e) => {
                self.log(text::cat("✗ ", e.as_str()));
            },
        }
    }

    /// A login finished: the added account, or the error, is logged.
    pub fn login_done(&mut self, res: Result<String, String>, codex_running: bool)
        ensures
            final(self)@ == (match res {
                Ok(email) => with_note(old(self)@, "✅ 已添加账号: "@ + email@ + "（未激活，选中回车切换）"@, codex_running),
                Err(e) => with_log(old(self)@, "✗ "@ + e@),
            }),
    {
        match res {
            Ok(email) => {
                let mut line = text::cat("✅ 已添加账号: ", email.as_str());
                text::push_str(&mut line, "（未激活，选中回车切换）");
                self.log(line);
                if codex_running {
                    self.log(text::to_owned("ℹ 检测到 Codex 正在运行，请重启 Codex 生效"));
                }
            },
            Err(e) => {
                self.log(text::cat("✗ ", e.as_str()));
            },
        }
    }

    /// A stale account was logged in again (or not): `Ok(true)` when it is
    /// the account in use, whose official credentials followed. The account
    /// in use never changes; the note to restart Codex comes only when the
    /// credentials it runs with were replaced.
    pub fn reauth_done(&mut self, email: &str, res: Result<bool, String>, codex_running: bool)
        ensures
            final(self)@ == (match res {
                Ok(is_current) => with_note(old(self)@, reauth_line(email@, is_current), codex_running && is_current),
                Err(e) => with_log(old(self)@, "✗ "@ + e@),
            }),
    {
        match res {
            Ok(is_current) => {
                let mut line = text::cat("✅ 已重新登录: ", email);
                if is_current {
                    text::push_str(&mut line, "（使用中账号的凭据已同步）");
                } else {
                    text::push_str(&mut line, "（当前账号未改变）");
                }
                self.log(line);
                if codex_running && is_current {
                    self.log(text::to_owned("ℹ 检测到 Codex 正在运行，请重启 Codex 生效"));
                }
            },
            Err(e) => {
                self.log(text::cat("✗ ", e.as_str()));
            },
        }
    }

    /// A deletion finished.
    pub fn delete_done(&mut self, email: &str, res: Result<(), String>)
        ensures
            final(self)@ == with_log(
                old(self)@,
                match res {
                    Ok(()) => "✅ 已删除: "@ + email@,
                    Err(e) => "✗ "@ + e@,
                },
            ),
    {
        match res {
            Ok(()) => self.log(text::cat("✅ 已删除: ", email)),
            Err(e) => self.log(text::cat("✗ ", e.as_str())),
        }
    }

    /// The doctor's report is shown from its top, or its error logged.
    pub fn doctor_done(&mut self, res: Result<Vec<String>, String>)
        ensures
            final(self)@ == (match res {
                Ok(lines) => UiView { doctor_view: Some((lines_view(lines@), 0)), ..old(self)@ },
                Err(e) => with_log(old(self)@, "✗ "@ + e@),
            }),
    {
        match res {
            Ok(lines) => {
                self.doctor_view = Some((lines, 0));
            },
            Err(e) => {
                self.log(text::cat("✗ ", e.as_str()));
            },
        }
    }

    /// A harvest finished: (accounts, whether anything changed), or its
    /// error.
    pub fn harvest_done(&mut self, res: Result<(usize, bool), String>)
        ensures
            final(self)@ == with_log(old(self)@, harvest_line(res)),
    {
        match res {
            Ok((n, changed)) => {
                let mut line = text::cat("✅ 已从官方 auth.json 收敛（", text::fmt_u64(n as u64).as_str());
                text::push_str(&mut line, " 个账号");
                if changed {
                    text::push_str(&mut line, "，有更新");
                }
                text::push_str(&mut line, "）");
                proof {
                    reveal_strlit("");
                }
                assert(line@ =~= harvest_line(res));
                self.log(line);
            },
            Err(e) => {
                self.log(text::cat("✗ 收敛失败：", e.as_str()));
            },
        }
    }

    /// An update check finished: the new version, none, or an error.
    pub fn update_done(&mut self, res: Result<Option<String>, String>)
        ensures
            final(self)@ == with_log(UiView { busy: None, ..old(self)@ }, update_line(res)),
    {
        self.busy = None;
        match res {
            Ok(Some(v)) => {
                let mut line = text::cat("✅ 已升级到 ", v.as_str());
                text::push_str(&mut line, "，请重启 hangar 生效");
                self.log(line);
            },
            Ok(None) => self.log(text::to_owned("已是最新版本")),
            Err(e) => {
                let mut line = text::cat("✗ 更新失败：", e.as_str());
                text::push_str(&mut line, "（旧版继续可用）");
                self.log(line);
            },
        }
    }

    /// The quota query finished at `now`: the recommendation it leads to is
    /// logged and returned.
    pub fn quotas_done(&mut self, now: i64) -> (r: Option<crate::recommendation::Recommendation>)
        ensures
            crate::recommendation::recommend_spec(
                old(self).accounts@,
                crate::recommendation::shares(old(self).quotas@),
                opt_view(old(self).current),
                r,
            ),
            final(self)@ == with_log(
                UiView { quota_busy: false, quota_now: now, ..old(self)@ },
                quotas_done_line(r),
            ),
    {
        self.quota_busy = false;
        self.quota_now = now;
        let cur: Option<&str> = match &self.current {
            Some(c) => Some(c.as_str()),
            None => None,
        };
        let r = crate::recommendation::recommend(&self.accounts, cur, &self.quotas);
        let line = match &r {
            Some(rec) => {
                let mut line = if rec.reason == crate::recommendation::Reason::KeepCurrent {
                    text::cat("✅ 配额查询完成；建议继续使用 ", rec.email.as_str())
                } else {
                    text::cat("✅ 配额查询完成；建议使用 ", rec.email.as_str())
                };
                text::push_str(&mut line, "（周剩余 ");
                text::push_str(&mut line, text::fmt_i64(rec.weekly_remaining as i64).as_str());
                text::push_str(&mut line, "%）");
                line
            },
            None => text::to_owned("✅ 配额查询完成；暂无可用建议"),
        };
        self.log(line);
        r
    }

    /// One tick of the UI clock (a tenth of a second); true when the
    /// periodic harvest is due (every 600 ticks).
    pub fn on_tick(&mut self) -> (due: bool)
        requires
            old(self).tick < u64::MAX,
        ensures
            final(self)@ == (UiView { tick: (old(self).tick + 1) as u64, ..old(self)@ }),
            due == ((old(self).tick + 1) % 600 == 0),
    {
        self.tick = self.tick + 1;
        self.tick % 600 == 0
    }
}

} // verus!
