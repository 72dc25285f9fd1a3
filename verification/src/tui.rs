//! The terminal UI's state and the decisions it takes: which accounts the
//! filter shows, the selection, the log, fetched quota results, which
//! accounts to query, and the command palette. Drawing, keys and threads
//! are the caller's.

use crate::account::{opt_view, Account, AccountsFile};
use crate::quota::Quota;
use crate::text::{self, has_substring, trim_spec, unicode_lowercase};
use vstd::prelude::*;

verus! {

/// How many log lines are kept.
pub const LOG_CAP: usize = 200;

/// The terminal UI's state.
pub struct App {
    pub accounts: Vec<Account>,
    pub current: Option<String>,
    pub selected: usize,
    pub filter: String,
    pub filtering: bool,
    pub log: Vec<String>,
    pub busy: Option<String>,
    pub confirm_delete: bool,
    pub doctor_view: Option<(Vec<String>, usize)>,
    /// The quotas fetched this session, by account id.
    pub quotas: Vec<(String, Quota)>,
    /// The accounts whose quota is being queried.
    pub quota_pending: Vec<String>,
    /// The last query error of each account.
    pub quota_errors: Vec<(String, String)>,
    pub quota_now: i64,
    pub quota_busy: bool,
    pub log_expanded: bool,
    pub should_quit: bool,
    pub tick: u64,
    /// The command palette: open, and its filter (`None`: choosing).
    pub palette_open: bool,
    pub palette_input: Option<String>,
    pub palette_sel: usize,
}

/// An email passes the filter `q` (already trimmed and lower-cased).
pub open spec fn passes(email: Seq<char>, q: Seq<char>) -> bool {
    q.len() == 0 || has_substring(unicode_lowercase(email), q)
}

/// The indices, in order, of the accounts whose email passes `q`.
pub open spec fn filtered_spec(accs: Seq<Account>, q: Seq<char>) -> Seq<usize>
    decreases accs.len(),
{
    if accs.len() == 0 {
        Seq::empty()
    } else {
        let rest = filtered_spec(accs.drop_last(), q);
        if passes(accs.last().email@, q) {
            rest.push((accs.len() - 1) as usize)
        } else {
            rest
        }
    }
}

/// The filter as it is applied: trimmed and lower-cased.
pub open spec fn filter_query(filter: Seq<char>) -> Seq<char> {
    text::query_spec(filter)
}

proof fn lemma_filtered_bounds(accs: Seq<Account>, q: Seq<char>)
    ensures
        filtered_spec(accs, q).len() <= accs.len(),
        forall|k: int| 0 <= k < filtered_spec(accs, q).len() ==> (#[trigger] filtered_spec(accs, q)[k]) < accs.len(),
    decreases accs.len(),
{
    if accs.len() > 0 {
        lemma_filtered_bounds(accs.drop_last(), q);
    }
}

/// `v` without any occurrence of `id`.
pub open spec fn without_id(v: Seq<String>, id: Seq<char>) -> Seq<String>
    decreases v.len(),
{
    if v.len() == 0 {
        Seq::empty()
    } else if v.last()@ == id {
        without_id(v.drop_last(), id)
    } else {
        without_id(v.drop_last(), id).push(v.last())
    }
}

/// `v` without any entry of `id`.
pub open spec fn without_key<T>(v: Seq<(String, T)>, id: Seq<char>) -> Seq<(String, T)>
    decreases v.len(),
{
    if v.len() == 0 {
        Seq::empty()
    } else if v.last().0@ == id {
        without_key(v.drop_last(), id)
    } else {
        without_key(v.drop_last(), id).push(v.last())
    }
}

fn remove_id(v: &mut Vec<String>, id: &str)
    ensures
        final(v)@ == without_id(old(v)@, id@),
{
    let ghost orig = v@;
    let mut out: Vec<String> = Vec::new();
    let mut i: usize = 0;
    while i < v.len()
        invariant
            i <= v.len(),
            v@ == orig,
            out@ == without_id(orig.subrange(0, i as int), id@),
        decreases v.len() - i,
    {
        assert(orig.subrange(0, i + 1).drop_last() =~= orig.subrange(0, i as int));
        if !text::str_eq(v[i].as_str(), id) {
            out.push(v[i].clone());
        }
        i = i + 1;
    }
    assert(orig.subrange(0, orig.len() as int) =~= orig);
    *v = out;
}

/// Removes every entry of `id`.
pub fn remove_key<T>(v: &mut Vec<(String, T)>, id: &str)
    ensures
        final(v)@ == without_key(old(v)@, id@),
{
    let ghost orig = v@;
    let n = v.len();
    let mut taken: Vec<(String, T)> = Vec::new();
    std::mem::swap(&mut taken, v);
    let mut rev: Vec<(String, T)> = Vec::new();
    while taken.len() > 0
        invariant
            orig == taken@ + rev@.reverse(),
        decreases taken.len(),
    {
        let ghost t0 = taken@;
        let ghost r0 = rev@;
        let e = taken.pop().unwrap();
        rev.push(e);
        assert(rev@.reverse() =~= seq![e] + r0.reverse());
        assert(t0 =~= taken@.push(e));
        assert(orig =~= taken@ + rev@.reverse());
    }
    assert(orig =~= rev@.reverse());
    let mut out: Vec<(String, T)> = Vec::new();
    let mut done: usize = 0;
    while rev.len() > 0
        invariant
            done + rev@.len() == orig.len(),
            orig.len() == n,
            rev@.reverse() == orig.subrange(done as int, orig.len() as int),
            out@ == without_key(orig.subrange(0, done as int), id@),
        decreases rev.len(),
    {
        let ghost r0 = rev@;
        let e = rev.pop().unwrap();
        assert(r0.reverse() =~= seq![e] + rev@.reverse());
        assert(orig.subrange(done as int, orig.len() as int)[0] == e);
        assert(orig[done as int] == e);
        assert(orig.subrange(done as int, orig.len() as int).drop_first() =~= orig.subrange(
            done + 1,
            orig.len() as int,
        ));
        assert((seq![e] + rev@.reverse()).drop_first() =~= rev@.reverse());
        assert(orig.subrange(0, done + 1).drop_last() =~= orig.subrange(0, done as int));
        if !text::str_eq(e.0.as_str(), id) {
            out.push(e);
        }
        done = done + 1;
    }
    assert(orig.subrange(0, orig.len() as int) =~= orig);
    *v = out;
}

/// Index of the first entry of `id`, or the number of entries.
pub open spec fn key_index<T>(v: Seq<(String, T)>, id: Seq<char>) -> int
    decreases v.len(),
{
    if v.len() == 0 {
        0
    } else if v[0].0@ == id {
        0
    } else {
        1 + key_index(v.drop_first(), id)
    }
}

proof fn lemma_key_index<T>(v: Seq<(String, T)>, id: Seq<char>)
    ensures
        0 <= key_index(v, id) <= v.len(),
        key_index(v, id) < v.len() ==> v[key_index(v, id)].0@ == id,
        forall|j: int| 0 <= j < key_index(v, id) ==> (#[trigger] v[j]).0@ != id,
    decreases v.len(),
{
    if v.len() > 0 && v[0].0@ != id {
        lemma_key_index(v.drop_first(), id);
        assert forall|j: int| 0 <= j < key_index(v, id) implies (#[trigger] v[j]).0@ != id by {
            if j > 0 {
                assert(v[j] == v.drop_first()[j - 1]);
            }
        }
    }
}

/// The entries after `id` is set to `val`: its first entry's value is
/// replaced, else the entry is added at the end.
pub open spec fn inserted<T>(v: Seq<(String, T)>, id: String, val: T) -> Seq<(String, T)> {
    let i = key_index(v, id@);
    if i < v.len() {
        v.update(i, (v[i].0, val))
    } else {
        v.push((id, val))
    }
}

/// Sets the value of `id`.
pub fn insert_key<T>(v: &mut Vec<(String, T)>, id: String, val: T)
    ensures
        final(v)@ == inserted(old(v)@, id, val),
{
    let ghost orig = v@;
    proof {
        lemma_key_index(orig, id@);
    }
    let mut i: usize = 0;
    while i < v.len()
        invariant
            i <= v.len(),
            v@ == orig,
            orig == old(v)@,
            forall|j: int| 0 <= j < i ==> (#[trigger] v@[j]).0@ != id@,
        decreases v.len() - i,
    {
        if text::str_eq(v[i].0.as_str(), id.as_str()) {
            proof {
                lemma_key_index(orig, id@);
                assert(orig[i as int].0@ == id@);
            }
            let key = v[i].0.clone();
            v.set(i, (key, val));
            return ;
        }
        i = i + 1;
    }
    proof {
        lemma_key_index(orig, id@);
    }
    v.push((id, val));
}

/// The log after `s` is added: at most `LOG_CAP` lines, the newest kept.
pub open spec fn logged(log: Seq<String>, s: String) -> Seq<String> {
    let l = log.push(s);
    if l.len() > LOG_CAP {
        l.subrange(l.len() - LOG_CAP, l.len() as int)
    } else {
        l
    }
}

/// The targets of a quota query: every account that is not stale, in
/// library order, as (id, email).
pub open spec fn quota_targets_spec(accs: Seq<Account>) -> Seq<(Seq<char>, Seq<char>)>
    decreases accs.len(),
{
    if accs.len() == 0 {
        Seq::empty()
    } else if accs.last().stale {
        quota_targets_spec(accs.drop_last())
    } else {
        quota_targets_spec(accs.drop_last()).push((accs.last().id@, accs.last().email@))
    }
}

/// Index of the first account with id `id`, or the number of accounts.
pub open spec fn account_index(accs: Seq<Account>, id: Seq<char>) -> int
    decreases accs.len(),
{
    if accs.len() == 0 {
        0
    } else if accs[0].id@ == id {
        0
    } else {
        1 + account_index(accs.drop_first(), id)
    }
}

proof fn lemma_account_index(accs: Seq<Account>, id: Seq<char>)
    ensures
        0 <= account_index(accs, id) <= accs.len(),
        account_index(accs, id) < accs.len() ==> accs[account_index(accs, id)].id@ == id,
        forall|j: int| 0 <= j < account_index(accs, id) ==> (#[trigger] accs[j]).id@ != id,
    decreases accs.len(),
{
    if accs.len() > 0 && accs[0].id@ != id {
        lemma_account_index(accs.drop_first(), id);
        assert forall|j: int| 0 <= j < account_index(accs, id) implies (#[trigger] accs[j]).id@ != id by {
            if j > 0 {
                assert(accs[j] == accs.drop_first()[j - 1]);
            }
        }
    }
}

/// The accounts after a refreshed copy of one replaces the first stored
/// account with its id.
pub open spec fn replaced(accs: Seq<Account>, a: Account) -> Seq<Account> {
    let i = account_index(accs, a.id@);
    if i < accs.len() {
        accs.update(i, a)
    } else {
        accs
    }
}

fn find_account(accs: &Vec<Account>, id: &str) -> (r: usize)
    ensures
        r as int == account_index(accs@, id@),
{
    proof {
        lemma_account_index(accs@, id@);
    }
    let mut i: usize = 0;
    while i < accs.len()
        invariant
            i <= accs.len(),
            forall|j: int| 0 <= j < i ==> (#[trigger] accs@[j]).id@ != id@,
        decreases accs.len() - i,
    {
        if text::str_eq(accs[i].id.as_str(), id) {
            proof {
                lemma_account_index(accs@, id@);
            }
            return i;
        }
        i = i + 1;
    }
    i
}

impl App {
    /// The accounts the filter shows, by index.
    pub fn filtered(&self) -> (r: Vec<usize>)
        ensures
            r@ == filtered_spec(self.accounts@, filter_query(self.filter@)),
    {
        let q = text::query_of(self.filter.as_str());
        let empty = q.as_str().is_empty();
        let mut out: Vec<usize> = Vec::new();
        let mut i: usize = 0;
        while i < self.accounts.len()
            invariant
                i <= self.accounts.len(),
                q@ == filter_query(self.filter@),
                empty == (q@.len() == 0),
                out@ == filtered_spec(self.accounts@.subrange(0, i as int), q@),
            decreases self.accounts.len() - i,
        {
            let ghost pre = self.accounts@.subrange(0, i as int);
            assert(self.accounts@.subrange(0, i + 1).drop_last() =~= pre);
            let e = text::to_lowercase(self.accounts[i].email.as_str());
            if empty || text::contains(e.as_str(), q.as_str()) {
                out.push(i);
            }
            i = i + 1;
        }
        assert(self.accounts@.subrange(0, self.accounts@.len() as int) =~= self.accounts@);
        out
    }

    /// The selected account among those the filter shows.
    pub fn selected_account(&self) -> (r: Option<&Account>)
        ensures
            ({
                let f = filtered_spec(self.accounts@, filter_query(self.filter@));
                match r {
                    Some(a) => self.selected < f.len() && *a == self.accounts@[f[self.selected as int] as int],
                    None => self.selected >= f.len(),
                }
            }),
    {
        let f = self.filtered();
        proof {
            lemma_filtered_bounds(self.accounts@, filter_query(self.filter@));
        }
        if self.selected < f.len() {
            let i = f[self.selected];
            Some(&self.accounts[i])
        } else {
            None
        }
    }

    /// Keeps the selection inside the filtered list.
    pub fn clamp_selection(&mut self)
        ensures
            ({
                let n = filtered_spec(old(self).accounts@, filter_query(old(self).filter@)).len();
                final(self).selected == (if n == 0 {
                    0
                } else if old(self).selected >= n {
                    (n - 1) as usize
                } else {
                    old(self).selected
                })
            }),
            final(self).accounts == old(self).accounts,
            final(self).current == old(self).current,
            final(self).filter == old(self).filter,
            final(self).log == old(self).log,
            final(self).quotas == old(self).quotas,
    {
        let n = self.filtered().len();
        if n == 0 {
            self.selected = 0;
        } else if self.selected >= n {
            self.selected = n - 1;
        }
    }

    /// Takes a freshly loaded library.
    pub fn reload_from(&mut self, file: AccountsFile)
        ensures
            final(self).current == file.current_account_id,
            final(self).accounts@ == file.accounts@,
            ({
                let n = filtered_spec(file.accounts@, filter_query(old(self).filter@)).len();
                final(self).selected == (if n == 0 {
                    0
                } else if old(self).selected >= n {
                    (n - 1) as usize
                } else {
                    old(self).selected
                })
            }),
    {
        self.current = file.current_account_id;
        self.accounts = file.accounts;
        self.clamp_selection();
    }

    /// Adds a log line, keeping the newest `LOG_CAP`.
    pub fn push_log(&mut self, s: String)
        ensures
            final(self).log@ == logged(old(self).log@, s),
            *final(self) == (App { log: final(self).log, ..*old(self) }),
    {
        let ghost l = self.log@.push(s);
        self.log.push(s);
        if self.log.len() > LOG_CAP {
            let start = self.log.len() - LOG_CAP;
            let mut taken: Vec<String> = Vec::new();
            std::mem::swap(&mut taken, &mut self.log);
            let mut kept: Vec<String> = Vec::new();
            let mut i: usize = start;
            while i < taken.len()
                invariant
                    start <= i <= taken.len(),
                    taken@ == l,
                    kept@ == l.subrange(start as int, i as int),
                decreases taken.len() - i,
            {
                kept.push(taken[i].clone());
                i = i + 1;
                assert(kept@ =~= l.subrange(start as int, i as int));
            }
            self.log = kept;
        }
    }

    /// Records the outcome of one account's quota query: on success the
    /// refreshed account replaces the stored one and the quota is kept; on
    /// failure the quota is dropped, the error kept and logged.
    pub fn apply_quota_result(&mut self, id: String, email: String, result: Result<(Account, Quota), String>)
        ensures
            final(self).quota_pending@ == without_id(old(self).quota_pending@, id@),
            match result {
                Ok((account, quota)) => {
                    &&& final(self).quota_errors@ == without_key(old(self).quota_errors@, id@)
                    &&& final(self).accounts@ == replaced(old(self).accounts@, account)
                    &&& final(self).quotas@ == inserted(old(self).quotas@, id, quota)
                    &&& final(self).log == old(self).log
                },
                Err(error) => {
                    &&& final(self).quotas@ == without_key(old(self).quotas@, id@)
                    &&& final(self).quota_errors@ == inserted(old(self).quota_errors@, id, error)
                    &&& final(self).accounts == old(self).accounts
                    &&& exists|line: String|
                        line@ == "✗ "@ + email@ + "："@ + error@ && final(self).log@ == logged(
                            old(self).log@,
                            line,
                        )
                },
            },
    {
        remove_id(&mut self.quota_pending, id.as_str());
        match result {
            Ok((account, quota)) => {
                remove_key(&mut self.quota_errors, id.as_str());
                let i = find_account(&self.accounts, account.id.as_str());
                if i < self.accounts.len() {
                    self.accounts.set(i, account);
                }
                insert_key(&mut self.quotas, id, quota);
            },
            Err(error) => {
                remove_key(&mut self.quotas, id.as_str());
                let mut line = text::cat("✗ ", email.as_str());
                text::push_str(&mut line, "：");
                text::push_str(&mut line, error.as_str());
                insert_key(&mut self.quota_errors, id, error);
                self.push_log(line);
            },
        }
    }

    /// The accounts whose quota a full query asks for.
    pub fn quota_targets(&self) -> (r: Vec<(String, String)>)
        ensures
            r@.map_values(|p: (String, String)| (p.0@, p.1@)) == quota_targets_spec(self.accounts@),
    {
        let mut out: Vec<(String, String)> = Vec::new();
        let mut i: usize = 0;
        while i < self.accounts.len()
            invariant
                i <= self.accounts.len(),
                out@.map_values(|p: (String, String)| (p.0@, p.1@)) == quota_targets_spec(
                    self.accounts@.subrange(0, i as int),
                ),
            decreases self.accounts.len() - i,
        {
            let ghost pre = self.accounts@.subrange(0, i as int);
            assert(self.accounts@.subrange(0, i + 1).drop_last() =~= pre);
            let a = &self.accounts[i];
            if !a.stale {
                out.push((a.id.clone(), a.email.clone()));
                assert(out@.map_values(|p: (String, String)| (p.0@, p.1@)) =~= quota_targets_spec(
                    pre,
                ).push((a.id@, a.email@)));
            }
            i = i + 1;
        }
        assert(self.accounts@.subrange(0, self.accounts@.len() as int) =~= self.accounts@);
        out
    }
}

/// A command of the palette.
#[derive(Debug, Clone, Copy, PartialEq, Eq, Structural)]
pub enum Action {
    Add,
    Reauth,
    QuotaCurrent,
    QuotaAll,
    Doctor,
    Harvest,
    Delete,
    Update,
}

/// A palette entry: its label, its hint and its command.
#[derive(Debug, Clone, Copy)]
pub struct PaletteItem {
    pub label: &'static str,
    pub hint: &'static str,
    pub action: Action,
}

/// The number of palette entries.
pub const PALETTE_LEN: usize = 8;

/// The palette's entries in order: label, hint and command.
pub open spec fn palette_spec(i: int) -> (Seq<char>, Seq<char>, Action) {
    if i == 0 {
        ("添加账号"@, "打开浏览器 OAuth 登录，仅添加不切换"@, Action::Add)
    } else if i == 1 {
        ("复活账号"@, "为失效账号重新登录（原位覆盖）"@, Action::Reauth)
    } else if i == 2 {
        ("删除账号"@, "删除选中的账号（使用中账号不可删）"@, Action::Delete)
    } else if i == 3 {
        ("刷新当前配额"@, "只查询选中账号的用量与重置时间"@, Action::QuotaCurrent)
    } else if i == 4 {
        ("刷新全部配额"@, "逐个查询全部正常账号，不锁住浏览"@, Action::QuotaAll)
    } else if i == 5 {
        ("自检"@, "离线检查凭据/权限/一致性"@, Action::Doctor)
    } else if i == 6 {
        ("收敛凭据"@, "立即从官方 auth.json 回收最新 token"@, Action::Harvest)
    } else {
        ("检查更新"@, "检查并升级到最新版"@, Action::Update)
    }
}

/// The palette entry at `i`.
pub fn palette_item(i: usize) -> (r: PaletteItem)
    requires
        i < PALETTE_LEN,
    ensures
        (r.label@, r.hint@, r.action) == palette_spec(i as int),
{
    if i == 0 {
        PaletteItem { label: "添加账号", hint: "打开浏览器 OAuth 登录，仅添加不切换", action: Action::Add }
    } else if i == 1 {
        PaletteItem { label: "复活账号", hint: "为失效账号重新登录（原位覆盖）", action: Action::Reauth }
    } else if i == 2 {
        PaletteItem { label: "删除账号", hint: "删除选中的账号（使用中账号不可删）", action: Action::Delete }
    } else if i == 3 {
        PaletteItem {
            label: "刷新当前配额",
            hint: "只查询选中账号的用量与重置时间",
            action: Action::QuotaCurrent,
        }
    } else if i == 4 {
        PaletteItem {
            label: "刷新全部配额",
            hint: "逐个查询全部正常账号，不锁住浏览",
            action: Action::QuotaAll,
        }
    } else if i == 5 {
        PaletteItem { label: "自检", hint: "离线检查凭据/权限/一致性", action: Action::Doctor }
    } else if i == 6 {
        PaletteItem {
            label: "收敛凭据",
            hint: "立即从官方 auth.json 回收最新 token",
            action: Action::Harvest,
        }
    } else {
        PaletteItem { label: "检查更新", hint: "检查并升级到最新版", action: Action::Update }
    }
}

/// An entry passes the palette filter `q` (trimmed and lower-cased).
pub open spec fn entry_passes(i: int, q: Seq<char>) -> bool {
    q.len() == 0 || has_substring(unicode_lowercase(palette_spec(i).0), q) || has_substring(
        unicode_lowercase(palette_spec(i).1),
        q,
    )
}

/// The entries among the first `n` that pass `q`, in order.
pub open spec fn visible_spec(n: int, q: Seq<char>) -> Seq<usize>
    decreases n,
{
    if n <= 0 {
        Seq::empty()
    } else {
        let rest = visible_spec(n - 1, q);
        if entry_passes(n - 1, q) {
            rest.push((n - 1) as usize)
        } else {
            rest
        }
    }
}

/// The palette filter as it is applied.
pub open spec fn palette_query(input: Option<String>) -> Seq<char> {
    text::query_spec(
        match input {
            Some(s) => s@,
            None => Seq::empty(),
        },
    )
}

impl App {
    /// The palette entries the palette filter shows, by index (all of them
    /// while choosing).
    pub fn palette_visible(&self) -> (r: Vec<usize>)
        ensures
            r@ == visible_spec(PALETTE_LEN as int, palette_query(self.palette_input)),
    {
        let raw: &str = match &self.palette_input {
            Some(s) => s.as_str(),
            None => "",
        };
        proof {
            if self.palette_input is None {
                reveal_strlit("");
                assert(raw@ =~= Seq::<char>::empty());
            }
        }
        let q = text::query_of(raw);
        let empty = q.as_str().is_empty();
        let mut out: Vec<usize> = Vec::new();
        let mut i: usize = 0;
        while i < PALETTE_LEN
            invariant
                i <= PALETTE_LEN,
                q@ == palette_query(self.palette_input),
                empty == (q@.len() == 0),
                out@ == visible_spec(i as int, q@),
            decreases PALETTE_LEN - i,
        {
            let it = palette_item(i);
            if empty || text::contains(text::to_lowercase(it.label).as_str(), q.as_str())
                || text::contains(text::to_lowercase(it.hint).as_str(), q.as_str()) {
                out.push(i);
            }
            i = i + 1;
        }
        out
    }
}

} // verus!
