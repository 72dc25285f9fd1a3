//! The state machine behind the native bridge: refresh generations and
//! their account cards, switch generations, login session numbers and
//! quota fetch attempts. Threads, locks and the calls themselves are the
//! caller's: each step here takes what a call returned.

use crate::account::{self, opt_view, Account, AccountsFile, AccountError, AccountErrorKind};
use crate::dto::{
    account_record_of, error_code_of, phase_of, quota_record_of, AccountCardRecord, AccountRecord,
    BridgeError, DoctorReport, ErrorCode, LoginPhase, LoginSnapshot, LoginStart, QuotaLoadState, QuotaRecord, RefreshSnapshot, SwitchResult,
    SwitchSnapshot, copy_cards,
};
use crate::doctor::{doctor_lines, doctor_spec, facts_ok, DoctorFacts};
use crate::oauth;
use crate::operation::{OperationErrorCode, TaskPhase};
use crate::quota::Quota;
use crate::quota_cache::{self, Entry, TTL_SECS};
use crate::overview::first_value;
use crate::recommendation::{self, recommend_spec, shares, weekly_spec, Recommendation};
use crate::summary::{account_summary_of, quota_summary_of, summary_ok, AccountSummary, QuotaSummary};
use crate::text;
use vstd::prelude::*;

verus! {

/// The bridge's view of an optional operation error code.
pub open spec fn opt_code(c: Option<OperationErrorCode>) -> Option<ErrorCode> {
    match c {
        Some(x) => Some(error_code_of(x)),
        None => None,
    }
}

/// The current refresh: its generation, phase, cards and error.
pub struct RefreshState {
    pub generation: u64,
    pub phase: TaskPhase,
    pub accounts: Vec<AccountCardRecord>,
    pub error_code: Option<OperationErrorCode>,
    /// Every usable account is fetched (not only those whose cached quota
    /// is due).
    pub force: bool,
}

impl RefreshState {
    pub fn snapshot(&self) -> (r: RefreshSnapshot)
        ensures
            r.generation == self.generation,
            r.phase == phase_of(self.phase),
            r.accounts@ == self.accounts@,
            r.error_code == opt_code(self.error_code),
    {
        RefreshSnapshot {
            generation: self.generation,
            phase: self.phase.into(),
            accounts: copy_cards(&self.accounts),
            error_code: match self.error_code {
                Some(c) => Some(ErrorCode::from(c)),
                None => None,
            },
        }
    }
}

/// The current switch: its generation, phase and outcome.
pub struct SwitchState {
    pub generation: u64,
    pub phase: TaskPhase,
    pub result: Option<SwitchResult>,
    pub error_code: Option<OperationErrorCode>,
    pub message: Option<String>,
}

impl SwitchState {
    pub fn snapshot(&self) -> (r: SwitchSnapshot)
        ensures
            r.generation == self.generation,
            r.phase == phase_of(self.phase),
            r.result == self.result,
            r.error_code == opt_code(self.error_code),
            r.message == self.message,
    {
        SwitchSnapshot {
            generation: self.generation,
            phase: self.phase.into(),
            result: match &self.result {
                Some(x) => Some(x.copy()),
                None => None,
            },
            error_code: match self.error_code {
                Some(c) => Some(ErrorCode::from(c)),
                None => None,
            },
            message: crate::account::copy_opt(&self.message),
        }
    }
}

/// The bridge's state.
pub struct HangarService {
    pub next_generation: u64,
    pub next_switch_generation: u64,
    pub next_login_session: u64,
    pub closed: bool,
    pub state: RefreshState,
    pub switch_state: SwitchState,
    /// When each account's quota was last requested.
    pub quota_attempts: Vec<(String, u64)>,
    /// The login sessions not yet released, oldest first.
    pub login_sessions: Vec<LoginSessionEntry>,
}

/// What a login session does with its account once it succeeds: add it, or
/// log the account with this id in again.
pub enum LoginMode {
    Add,
    Reauth(String),
}

/// The bookkeeping of one login session; the session itself (browser,
/// callback server, token exchange) is the caller's.
pub struct LoginSessionEntry {
    pub session_id: u64,
    pub mode: LoginMode,
    /// The session's account was stored.
    pub committed: bool,
    /// Storing the session's account failed.
    pub commit_error: Option<BridgeError>,
    /// The session was asked to stop; the caller stops the session itself.
    pub cancel_requested: bool,
}

/// Index of the first session with id `id`, or the number of sessions.
pub open spec fn session_index(v: Seq<LoginSessionEntry>, id: u64) -> int
    decreases v.len(),
{
    if v.len() == 0 {
        0
    } else if v[0].session_id == id {
        0
    } else {
        1 + session_index(v.drop_first(), id)
    }
}

proof fn lemma_session_index(v: Seq<LoginSessionEntry>, id: u64)
    ensures
        0 <= session_index(v, id) <= v.len(),
        session_index(v, id) < v.len() ==> v[session_index(v, id)].session_id == id,
        forall|j: int| 0 <= j < session_index(v, id) ==> (#[trigger] v[j]).session_id != id,
    decreases v.len(),
{
    if v.len() > 0 && v[0].session_id != id {
        lemma_session_index(v.drop_first(), id);
        assert forall|j: int| 0 <= j < session_index(v, id) implies (#[trigger] v[j]).session_id != id by {
            if j > 0 {
                assert(v[j] == v.drop_first()[j - 1]);
            }
        }
    }
}

/// The message for a login session that does not exist.
pub open spec fn no_session_message(id: u64) -> Seq<char> {
    "OAuth 会话不存在: "@ + text::dec(id as int)
}

/// The snapshot of a login session: a failed commit makes it failed with
/// that error; otherwise the session's own phase, an authentication error
/// code when it failed, and its message.
pub open spec fn login_snapshot_spec(
    e: LoginSessionEntry,
    phase: LoginPhase,
    session_message: Option<String>,
    r: LoginSnapshot,
) -> bool {
    &&& r.session_id == e.session_id
    &&& match e.commit_error {
        Some(err) => {
            &&& r.phase == LoginPhase::Failed
            &&& r.error_code == Some(err.code_spec())
            &&& r.message matches Some(m) && m@ == err.message_spec()
        },
        None => {
            &&& r.phase == phase
            &&& r.error_code == (if phase == LoginPhase::Failed {
                Some(ErrorCode::Auth)
            } else {
                None
            })
            &&& r.message == session_message
        },
    }
}

/// `r` is a state error with the message `msg`.
pub open spec fn state_error<T>(r: Result<T, BridgeError>, msg: Seq<char>) -> bool {
    r matches Err(BridgeError::State { message }) && message@ == msg
}

/// A phase that is still waiting or working.
pub open spec fn busy(p: TaskPhase) -> bool {
    p is Pending || p is Running
}

/// The first cache entry of an account id.
pub open spec fn cached_for(cache: Seq<(String, Entry)>, id: Seq<char>) -> Option<Entry>
    decreases cache.len(),
{
    if cache.len() == 0 {
        None
    } else if cache[0].0@ == id {
        Some(cache[0].1)
    } else {
        cached_for(cache.drop_first(), id)
    }
}

/// Every cached quota can be summarised at its fetch time.
pub open spec fn cache_ok(cache: Seq<(String, Entry)>) -> bool {
    forall|i: int|
        0 <= i < cache.len() ==> (#[trigger] cache[i]).1.fetched_at <= i64::MAX && summary_ok(
            cache[i].1.quota,
            cache[i].1.fetched_at as i64,
        )
}

/// The card of an account before any recommendation is marked.
pub open spec fn card_for(a: Account, current: bool, cached: Option<Entry>, now: u64) -> AccountCardRecord {
    let summary = match cached {
        Some(e) => Some(quota_summary_of(e.quota, e.fetched_at as i64)),
        None => None,
    };
    AccountCardRecord {
        account: account_record_of(account_summary_of(a, current, now)),
        quota: match summary {
            Some(s) => Some(quota_record_of(s)),
            None => None,
        },
        quota_state: if a.stale {
            QuotaLoadState::Stale
        } else if summary matches Some(s) && s.weekly_remaining is Some {
            QuotaLoadState::Success
        } else if cached is Some {
            QuotaLoadState::Unknown
        } else {
            QuotaLoadState::Pending
        },
        quota_fetched_at: match cached {
            Some(e) => Some(e.fetched_at as i64),
            None => None,
        },
        quota_is_fresh: match cached {
            Some(e) => e.is_fresh_spec(now),
            None => false,
        },
        recommended: false,
        error_code: None,
    }
}

/// `c` with its recommendation flag set to `f`.
pub open spec fn with_flag(c: AccountCardRecord, f: bool) -> AccountCardRecord {
    AccountCardRecord {
        account: c.account,
        quota: c.quota,
        quota_state: c.quota_state,
        quota_fetched_at: c.quota_fetched_at,
        quota_is_fresh: c.quota_is_fresh,
        recommended: f,
        error_code: c.error_code,
    }
}

/// The cache entry an account's card starts from: none for a stale one.
pub open spec fn entry_for(a: Account, cache: Seq<(String, Entry)>) -> Option<Entry> {
    if a.stale {
        None
    } else {
        cached_for(cache, a.id@)
    }
}

/// Some usable (not stale) account has the id.
pub open spec fn usable_id(accs: Seq<Account>, id: Seq<char>) -> bool {
    exists|j: int| 0 <= j < accs.len() && !(#[trigger] accs[j]).stale && accs[j].id@ == id
}

/// The weekly shares of the fresh cache entries of usable accounts.
pub open spec fn fresh_shares(accs: Seq<Account>, cache: Seq<(String, Entry)>, now: u64) -> Seq<
    (Seq<char>, Option<i32>),
>
    decreases cache.len(),
{
    if cache.len() == 0 {
        Seq::empty()
    } else {
        let rest = fresh_shares(accs, cache.drop_last(), now);
        let e = cache.last();
        if e.1.is_fresh_spec(now) && usable_id(accs, e.0@) {
            rest.push((e.0@, weekly_spec(e.1.quota)))
        } else {
            rest
        }
    }
}

/// `c` is marked exactly when `rec` names its account.
pub open spec fn marked(c: AccountCardRecord, rec: Option<Recommendation>) -> bool {
    c.recommended == (rec matches Some(x) && x.account_id@ == c.account.id@)
}

fn cache_lookup<'a>(cache: &'a Vec<(String, Entry)>, id: &str) -> (r: Option<&'a Entry>)
    ensures
        match r {
            Some(e) => cached_for(cache@, id@) == Some(*e),
            None => cached_for(cache@, id@) is None,
        },
{
    let mut i: usize = 0;
    assert(cache@.subrange(0, cache@.len() as int) =~= cache@);
    while i < cache.len()
        invariant
            i <= cache.len(),
            cached_for(cache@, id@) == cached_for(cache@.subrange(i as int, cache@.len() as int), id@),
        decreases cache.len() - i,
    {
        assert(cache@.subrange(i as int, cache@.len() as int).drop_first() =~= cache@.subrange(
            i + 1,
            cache@.len() as int,
        ));
        if text::str_eq(cache[i].0.as_str(), id) {
            return Some(&cache[i].1);
        }
        i = i + 1;
    }
    None
}

fn is_usable_id(accounts: &Vec<Account>, id: &str) -> (r: bool)
    ensures
        r == usable_id(accounts@, id@),
{
    let mut j: usize = 0;
    while j < accounts.len()
        invariant
            j <= accounts.len(),
            forall|k: int| 0 <= k < j ==> !(!(#[trigger] accounts@[k]).stale && accounts@[k].id@ == id@),
        decreases accounts.len() - j,
    {
        if !accounts[j].stale && text::str_eq(accounts[j].id.as_str(), id) {
            return true;
        }
        j = j + 1;
    }
    false
}

/// The fresh cached quotas of usable accounts, by account id.
pub fn fresh_quotas(accounts: &Vec<Account>, cache: &Vec<(String, Entry)>, now: u64) -> (r: Vec<
    (String, Quota),
>)
    ensures
        shares(r@) == fresh_shares(accounts@, cache@, now),
{
    let mut out: Vec<(String, Quota)> = Vec::new();
    let mut i: usize = 0;
    while i < cache.len()
        invariant
            i <= cache.len(),
            shares(out@) == fresh_shares(accounts@, cache@.subrange(0, i as int), now),
        decreases cache.len() - i,
    {
        let ghost pre = cache@.subrange(0, i as int);
        assert(cache@.subrange(0, i + 1).drop_last() =~= pre);
        let e = &cache[i];
        if e.1.is_fresh(now) && is_usable_id(accounts, e.0.as_str()) {
            let q = e.1.quota.copy();
            out.push((e.0.clone(), q));
            assert(shares(out@) =~= fresh_shares(accounts@, pre, now).push((e.0@, weekly_spec(e.1.quota))));
        }
        i = i + 1;
    }
    assert(cache@.subrange(0, cache@.len() as int) =~= cache@);
    out
}

fn card_of(a: &Account, current: bool, cached: Option<&Entry>, now: u64) -> (r: AccountCardRecord)
    requires
        match cached {
            Some(e) => e.fetched_at <= i64::MAX && summary_ok(e.quota, e.fetched_at as i64),
            None => true,
        },
    ensures
        r == card_for(
            *a,
            current,
            match cached {
                Some(e) => Some(*e),
                None => None,
            },
            now,
        ),
{
    let summary: Option<QuotaSummary> = match cached {
        Some(e) => Some(QuotaSummary::from_quota(&e.quota, e.fetched_at as i64)),
        None => None,
    };
    let quota_state = if a.stale {
        QuotaLoadState::Stale
    } else {
        match &summary {
            Some(s) => if s.weekly_remaining.is_some() {
                QuotaLoadState::Success
            } else {
                QuotaLoadState::Unknown
            },
            None => if cached.is_some() {
                QuotaLoadState::Unknown
            } else {
                QuotaLoadState::Pending
            },
        }
    };
    let quota: Option<QuotaRecord> = match summary {
        Some(s) => Some(QuotaRecord::from(s)),
        None => None,
    };
    AccountCardRecord {
        account: AccountRecord::from(AccountSummary::from_account(a, current, now)),
        quota,
        quota_state,
        quota_fetched_at: match cached {
            Some(e) => Some(e.fetched_at as i64),
            None => None,
        },
        quota_is_fresh: match cached {
            Some(e) => e.is_fresh(now),
            None => false,
        },
        recommended: false,
        error_code: None,
    }
}

fn opt_str_eq(a: &Option<String>, b: &str) -> (r: bool)
    ensures
        r == (opt_view(*a) == Some(b@)),
{
    match a {
        Some(x) => text::str_eq(x.as_str(), b),
        None => false,
    }
}

impl HangarService {
    /// An idle service: nothing refreshed or switched yet.
    pub fn new() -> (r: HangarService)
        ensures
            r.next_generation == 0 && r.next_switch_generation == 0 && r.next_login_session == 0,
            !r.closed,
            r.state.generation == 0 && r.state.phase == TaskPhase::Succeeded,
            r.state.accounts@.len() == 0 && r.state.error_code is None,
            r.switch_state.generation == 0 && r.switch_state.phase == TaskPhase::Succeeded,
            r.switch_state.result is None && r.switch_state.error_code is None
                && r.switch_state.message is None,
            r.quota_attempts@.len() == 0,
            r.login_sessions@.len() == 0,
    {
        HangarService {
            next_generation: 0,
            next_switch_generation: 0,
            next_login_session: 0,
            closed: false,
            state: RefreshState {
                generation: 0,
                phase: TaskPhase::Succeeded,
                accounts: Vec::new(),
                error_code: None,
                force: false,
            },
            switch_state: SwitchState {
                generation: 0,
                phase: TaskPhase::Succeeded,
                result: None,
                error_code: None,
                message: None,
            },
            quota_attempts: Vec::new(),
            login_sessions: Vec::new(),
        }
    }

    /// What a refresh start does: a closed service starts nothing (0);
    /// otherwise a new generation, pending, keeping the cards on show.
    pub open spec fn started(old: HangarService, new: HangarService, g: u64, force: bool) -> bool {
        if old.closed {
            g == 0 && new == old
        } else {
            &&& g == old.next_generation + 1
            &&& new.next_generation == g
            &&& new.state.generation == g
            &&& new.state.phase == TaskPhase::Pending
            &&& new.state.force == force
            &&& new.state.accounts@ == old.state.accounts@
            &&& new.state.error_code is None
            &&& new.next_switch_generation == old.next_switch_generation
            &&& new.next_login_session == old.next_login_session
            &&& new.closed == old.closed
            &&& new.switch_state == old.switch_state
            &&& new.quota_attempts == old.quota_attempts
            &&& new.login_sessions == old.login_sessions
        }
    }

    fn start_refresh(&mut self, force: bool) -> (g: u64)
        requires
            old(self).next_generation < u64::MAX,
        ensures
            Self::started(*old(self), *final(self), g, force),
    {
        if self.closed {
            return 0;
        }
        let generation = self.next_generation + 1;
        self.next_generation = generation;
        self.state.generation = generation;
        self.state.phase = TaskPhase::Pending;
        self.state.error_code = None;
        self.state.force = force;
        generation
    }

    /// Starts a refresh of every usable account (forced).
    pub fn start_refresh_all(&mut self) -> (g: u64)
        requires
            old(self).next_generation < u64::MAX,
        ensures
            Self::started(*old(self), *final(self), g, true),
    {
        self.start_refresh(true)
    }

    /// Starts a refresh of the accounts whose cached quota is not fresh.
    pub fn start_refresh_due(&mut self) -> (g: u64)
        requires
            old(self).next_generation < u64::MAX,
        ensures
            Self::started(*old(self), *final(self), g, false),
    {
        self.start_refresh(false)
    }

    pub fn refresh_snapshot(&self) -> (r: RefreshSnapshot)
        ensures
            r.generation == self.state.generation,
            r.phase == phase_of(self.state.phase),
            r.accounts@ == self.state.accounts@,
            r.error_code == opt_code(self.state.error_code),
    {
        self.state.snapshot()
    }

    /// Cancels the refresh of generation `g` while it is not finished.
    pub fn cancel_refresh(&mut self, g: u64) -> (r: bool)
        ensures
            cancelled(*old(self), g, *final(self), r),
    {
        if self.state.generation != g || matches!(
            self.state.phase,
            TaskPhase::Succeeded | TaskPhase::Failed | TaskPhase::Cancelled
        ) {
            return false;
        }
        self.state.phase = TaskPhase::Cancelled;
        true
    }

    /// Starts a switch: refused while closed, while a refresh of a started
    /// generation is busy, or while another switch is busy.
    pub fn start_switch(&mut self) -> (r: Result<u64, BridgeError>)
        requires
            old(self).next_switch_generation < u64::MAX,
        ensures
            old(self).closed ==> state_error(r, "Hangar 服务已关闭"@),
            !old(self).closed && busy(old(self).state.phase) && old(self).state.generation != 0
                ==> state_error(r, "账号额度仍在刷新，请稍后再切换"@),
            !old(self).closed && !(busy(old(self).state.phase) && old(self).state.generation != 0)
                && busy(old(self).switch_state.phase) && old(self).switch_state.generation != 0
                ==> state_error(r, "已有账号切换正在进行"@),
            !old(self).closed && !(busy(old(self).state.phase) && old(self).state.generation != 0)
                && !(busy(old(self).switch_state.phase) && old(self).switch_state.generation != 0)
                ==> r is Ok,
            r is Err ==> *final(self) == *old(self),
            r matches Ok(g) ==> g == old(self).next_switch_generation + 1
                && !old(self).closed && !(busy(old(self).state.phase) && old(self).state.generation != 0)
                && !(busy(old(self).switch_state.phase) && old(self).switch_state.generation != 0)
                && final(self).next_switch_generation == g && final(self).switch_state.generation == g
                && final(self).switch_state.phase == TaskPhase::Pending
                && final(self).switch_state.result is None
                && final(self).switch_state.error_code is None
                && final(self).switch_state.message is None
                && final(self).state == old(self).state,
    {
        if self.closed {
            return Err(BridgeError::State { message: text::to_owned("Hangar 服务已关闭") });
        }
        if matches!(self.state.phase, TaskPhase::Pending | TaskPhase::Running)
            && self.state.generation != 0 {
            return Err(BridgeError::State { message: text::to_owned("账号额度仍在刷新，请稍后再切换") });
        }
        if matches!(self.switch_state.phase, TaskPhase::Pending | TaskPhase::Running)
            && self.switch_state.generation != 0 {
            return Err(BridgeError::State { message: text::to_owned("已有账号切换正在进行") });
        }
        let generation = self.next_switch_generation + 1;
        self.next_switch_generation = generation;
        self.switch_state = SwitchState {
            generation,
            phase: TaskPhase::Pending,
            result: None,
            error_code: None,
            message: None,
        };
        Ok(generation)
    }

    pub fn switch_snapshot(&self) -> (r: SwitchSnapshot)
        ensures
            r.generation == self.switch_state.generation,
            r.phase == phase_of(self.switch_state.phase),
            r.result == self.switch_state.result,
            r.error_code == opt_code(self.switch_state.error_code),
            r.message == self.switch_state.message,
    {
        self.switch_state.snapshot()
    }

    /// The switch of generation `g` begins to run, if it is still pending.
    pub fn begin_switch(&mut self, g: u64) -> (r: bool)
        ensures
            r == (old(self).switch_state.generation == g && old(self).switch_state.phase
                == TaskPhase::Pending),
            r ==> final(self).switch_state.phase == TaskPhase::Running,
            !r ==> *final(self) == *old(self),
            final(self).state == old(self).state,
            final(self).switch_state.generation == old(self).switch_state.generation,
    {
        if self.switch_state.generation != g || self.switch_state.phase != TaskPhase::Pending {
            return false;
        }
        self.switch_state.phase = TaskPhase::Running;
        true
    }

    /// Records the outcome of the switch of generation `g`, if it is still
    /// the running one; an outcome for another generation changes nothing.
    pub fn finish_switch(&mut self, g: u64, result: Result<SwitchResult, BridgeError>)
        ensures
            !(old(self).switch_state.generation == g && old(self).switch_state.phase
                == TaskPhase::Running) ==> *final(self) == *old(self),
            old(self).switch_state.generation == g && old(self).switch_state.phase
                == TaskPhase::Running ==> match result {
                Ok(res) => final(self).switch_state.phase == TaskPhase::Succeeded
                    && final(self).switch_state.result == Some(res),
                Err(e) => final(self).switch_state.phase == TaskPhase::Failed
                    && final(self).switch_state.error_code == Some(
                    crate::operation::code_of_kind(kind_of_bridge(e)),
                ) && opt_view(final(self).switch_state.message) == Some(e.message_spec()),
            },
            final(self).state == old(self).state,
            final(self).switch_state.generation == old(self).switch_state.generation,
    {
        if self.switch_state.generation != g || self.switch_state.phase != TaskPhase::Running {
            return ;
        }
        match result {
            Ok(res) => {
                self.switch_state.phase = TaskPhase::Succeeded;
                self.switch_state.result = Some(res);
            },
            Err(e) => {
                self.switch_state.phase = TaskPhase::Failed;
                let code = match &e {
                    BridgeError::State { .. } => OperationErrorCode::State,
                    BridgeError::Auth { .. } => OperationErrorCode::Auth,
                    BridgeError::External { .. } => OperationErrorCode::External,
                    BridgeError::Internal { .. } => OperationErrorCode::Internal,
                };
                self.switch_state.error_code = Some(code);
                self.switch_state.message = Some(e.to_message());
            },
        }
    }

    /// Installs the cards of a loaded library for refresh generation `g`,
    /// unless that generation was replaced or cancelled: one card per
    /// account, from its cached quota (none for a stale account), marked
    /// when the fresh cached quotas recommend it.
    pub fn install_accounts(
        &mut self,
        g: u64,
        file: &AccountsFile,
        cache: &Vec<(String, Entry)>,
        now: u64,
    ) -> (r: bool)
        requires
            cache_ok(cache@),
        ensures
            r == (old(self).state.generation == g && old(self).state.phase != TaskPhase::Cancelled),
            !r ==> *final(self) == *old(self),
            r ==> final(self).state.generation == g && final(self).state.phase == TaskPhase::Running
                && final(self).state.error_code == old(self).state.error_code
                && final(self).state.accounts@.len() == file.accounts@.len() && exists|
                rec: Option<Recommendation>,
            |
                #[trigger] recommend_spec(
                    file.accounts@,
                    fresh_shares(file.accounts@, cache@, now),
                    opt_view(file.current_account_id),
                    rec,
                ) && forall|i: int|
                    0 <= i < file.accounts@.len() ==> (#[trigger] final(self).state.accounts@[i])
                        == with_flag(
                        card_for(
                            file.accounts@[i],
                            opt_view(file.current_account_id) == Some(file.accounts@[i].id@),
                            entry_for(file.accounts@[i], cache@),
                            now,
                        ),
                        rec matches Some(x) && x.account_id@ == file.accounts@[i].id@,
                    ),
            final(self).next_generation == old(self).next_generation,
            final(self).closed == old(self).closed,
            final(self).switch_state == old(self).switch_state,
            final(self).quota_attempts == old(self).quota_attempts,
    {
        if self.state.generation != g || self.state.phase == TaskPhase::Cancelled {
            return false;
        }
        let fresh = fresh_quotas(&file.accounts, cache, now);
        let current: Option<&str> = match &file.current_account_id {
            Some(c) => Some(c.as_str()),
            None => None,
        };
        let rec = recommendation::recommend(&file.accounts, current, &fresh);
        assert(recommendation::str_opt(current) == opt_view(file.current_account_id));
        let mut cards: Vec<AccountCardRecord> = Vec::new();
        let mut i: usize = 0;
        while i < file.accounts.len()
            invariant
                i <= file.accounts.len(),
                cache_ok(cache@),
                cards@.len() == i,
                forall|k: int|
                    0 <= k < i ==> (#[trigger] cards@[k]) == with_flag(
                        card_for(
                            file.accounts@[k],
                            opt_view(file.current_account_id) == Some(file.accounts@[k].id@),
                            entry_for(file.accounts@[k], cache@),
                            now,
                        ),
                        rec matches Some(x) && x.account_id@ == file.accounts@[k].id@,
                    ),
            decreases file.accounts.len() - i,
        {
            let a = &file.accounts[i];
            let cached: Option<&Entry> = if a.stale {
                None
            } else {
                cache_lookup(cache, a.id.as_str())
            };
            proof {
                if !a.stale {
                    lemma_cached_in(cache@, a.id@);
                }
            }
            let is_current = opt_str_eq(&file.current_account_id, a.id.as_str());
            let mut card = card_of(a, is_current, cached, now);
            card.recommended = match &rec {
                Some(x) => text::str_eq(x.account_id.as_str(), a.id.as_str()),
                None => false,
            };
            cards.push(card);
            i = i + 1;
        }
        self.state.phase = TaskPhase::Running;
        self.state.accounts = cards;
        true
    }
}

proof fn lemma_cached_in(cache: Seq<(String, Entry)>, id: Seq<char>)
    requires
        cache_ok(cache),
    ensures
        cached_for(cache, id) matches Some(e) ==> e.fetched_at <= i64::MAX && summary_ok(
            e.quota,
            e.fetched_at as i64,
        ),
    decreases cache.len(),
{
    if cache.len() > 0 {
        assert(cache_ok(cache.drop_first())) by {
            assert forall|i: int| 0 <= i < cache.drop_first().len() implies (#[trigger] cache.drop_first()[i]).1.fetched_at <= i64::MAX && summary_ok(
                cache.drop_first()[i].1.quota,
                cache.drop_first()[i].1.fetched_at as i64,
            ) by {
                assert(cache.drop_first()[i] == cache[i + 1]);
            }
        }
        lemma_cached_in(cache.drop_first(), id);
    }
}

/// The cache entry of `id`: its first.
fn cache_entry<'a>(cache: &'a Vec<(String, Entry)>, id: &str) -> (r: Option<&'a Entry>)
    ensures
        match r {
            Some(e) => first_value(cache@, id@) == Some(*e),
            None => first_value(cache@, id@) is None,
        },
{
    let mut i: usize = 0;
    assert(cache@.subrange(0, cache@.len() as int) =~= cache@);
    while i < cache.len()
        invariant
            i <= cache.len(),
            first_value(cache@, id@) == first_value(cache@.subrange(i as int, cache@.len() as int), id@),
        decreases cache.len() - i,
    {
        assert(cache@.subrange(i as int, cache@.len() as int).drop_first() =~= cache@.subrange(
            i + 1,
            cache@.len() as int,
        ));
        if text::str_eq(cache[i].0.as_str(), id) {
            return Some(&cache[i].1);
        }
        i = i + 1;
    }
    None
}

/// A refresh that is not forced fetches no account whose cached quota is
/// still fresh.
pub proof fn law_due_refresh_skips_fresh_cache(
    s: HangarService,
    accounts: Seq<Account>,
    cache: Seq<(String, Entry)>,
    i: int,
    now: u64,
)
    requires
        !s.state.force,
        first_value(cache, accounts[i].id@) matches Some(e) && e.is_fresh_spec(now),
    ensures
        !s.fetch_wanted(accounts, cache, i, now),
{
}

/// A forced refresh fetches every usable account and no stale one.
pub proof fn law_full_refresh_fetches_every_usable_account(
    s: HangarService,
    accounts: Seq<Account>,
    cache: Seq<(String, Entry)>,
    i: int,
    now: u64,
)
    requires
        s.state.force,
    ensures
        s.fetch_wanted(accounts, cache, i, now) == !accounts[i].stale,
{
}

/// The account error kind a bridge error stands for.
pub open spec fn kind_of_bridge(e: BridgeError) -> AccountErrorKind {
    match e {
        BridgeError::State { .. } => AccountErrorKind::State,
        BridgeError::Auth { .. } => AccountErrorKind::Auth,
        BridgeError::External { .. } => AccountErrorKind::External,
        BridgeError::Internal { .. } => AccountErrorKind::Internal,
    }
}

/// The bridge error of an account error's kind, carrying its message.
pub open spec fn bridge_of(kind: AccountErrorKind, message: String) -> BridgeError {
    match kind {
        AccountErrorKind::State => BridgeError::State { message },
        AccountErrorKind::Auth => BridgeError::Auth { message },
        AccountErrorKind::External => BridgeError::External { message },
        AccountErrorKind::Internal => BridgeError::Internal { message },
    }
}

/// Maps an account error to the bridge error of the same kind, keeping its
/// message.
pub fn account_error(error: AccountError) -> (r: BridgeError)
    ensures
        r == bridge_of(error.kind, error.message),
        kind_of_bridge(r) == error.kind,
{
    let message = error.message;
    match error.kind {
        AccountErrorKind::State => BridgeError::State { message },
        AccountErrorKind::Auth => BridgeError::Auth { message },
        AccountErrorKind::External => BridgeError::External { message },
        AccountErrorKind::Internal => BridgeError::Internal { message },
    }
}

/// Index of the first card of account `id`, or the number of cards.
pub open spec fn card_index(cards: Seq<AccountCardRecord>, id: Seq<char>) -> int
    decreases cards.len(),
{
    if cards.len() == 0 {
        0
    } else if cards[0].account.id@ == id {
        0
    } else {
        1 + card_index(cards.drop_first(), id)
    }
}

proof fn lemma_card_index(cards: Seq<AccountCardRecord>, id: Seq<char>)
    ensures
        0 <= card_index(cards, id) <= cards.len(),
        card_index(cards, id) < cards.len() ==> cards[card_index(cards, id)].account.id@ == id,
        forall|j: int| 0 <= j < card_index(cards, id) ==> (#[trigger] cards[j]).account.id@ != id,
    decreases cards.len(),
{
    if cards.len() > 0 && cards[0].account.id@ != id {
        lemma_card_index(cards.drop_first(), id);
        assert forall|j: int| 0 <= j < card_index(cards, id) implies (#[trigger] cards[j]).account.id@ != id by {
            if j > 0 {
                assert(cards[j] == cards.drop_first()[j - 1]);
            }
        }
    }
}

fn find_card(cards: &Vec<AccountCardRecord>, id: &str) -> (r: usize)
    ensures
        r as int == card_index(cards@, id@),
{
    proof {
        lemma_card_index(cards@, id@);
    }
    let mut i: usize = 0;
    while i < cards.len()
        invariant
            i <= cards.len(),
            forall|j: int| 0 <= j < i ==> (#[trigger] cards@[j]).account.id@ != id@,
        decreases cards.len() - i,
    {
        if text::str_eq(cards[i].account.id.as_str(), id) {
            proof {
                lemma_card_index(cards@, id@);
            }
            return i;
        }
        i = i + 1;
    }
    i
}

/// `c` with its quota marked as loading.
pub open spec fn loading(c: AccountCardRecord) -> AccountCardRecord {
    AccountCardRecord {
        account: c.account,
        quota: c.quota,
        quota_state: QuotaLoadState::Loading,
        quota_fetched_at: c.quota_fetched_at,
        quota_is_fresh: c.quota_is_fresh,
        recommended: c.recommended,
        error_code: c.error_code,
    }
}

/// `c` after a successful fetch at `now` of `quota` for the account
/// `fresh`.
pub open spec fn fetched(c: AccountCardRecord, fresh: Account, quota: Quota, now: u64) -> AccountCardRecord {
    let summary = quota_summary_of(quota, now as i64);
    AccountCardRecord {
        account: account_record_of(account_summary_of(fresh, c.account.current, now)),
        quota: Some(quota_record_of(summary)),
        quota_state: if summary.weekly_remaining is Some {
            QuotaLoadState::Success
        } else {
            QuotaLoadState::Unknown
        },
        quota_fetched_at: Some(now as i64),
        quota_is_fresh: true,
        recommended: c.recommended,
        error_code: None,
    }
}

/// `c` after a failed fetch: the old quota stays on show, no longer fresh.
pub open spec fn failed(c: AccountCardRecord) -> AccountCardRecord {
    AccountCardRecord {
        account: c.account,
        quota: c.quota,
        quota_state: QuotaLoadState::Failed,
        quota_fetched_at: c.quota_fetched_at,
        quota_is_fresh: false,
        recommended: c.recommended,
        error_code: Some(ErrorCode::External),
    }
}

/// The step applies to generation `g`: it is current and running.
pub open spec fn running(s: HangarService, g: u64) -> bool {
    s.state.generation == g && s.state.phase == TaskPhase::Running
}

/// What cancelling refresh generation `g` does: a refresh of that
/// generation that has not finished becomes cancelled (`true`); anything
/// else is left as it is (`false`).
pub open spec fn cancelled(old: HangarService, g: u64, new: HangarService, r: bool) -> bool {
    &&& r == (old.state.generation == g && !old.state.phase.is_terminal_phase())
    &&& r ==> new.state.phase == TaskPhase::Cancelled
    &&& !r ==> new.state.phase == old.state.phase
    &&& new.state.generation == old.state.generation
    &&& new.state.accounts == old.state.accounts
    &&& new.state.error_code == old.state.error_code
    &&& new.next_generation == old.next_generation
    &&& new.closed == old.closed
    &&& new.switch_state == old.switch_state
    &&& new.state.force == old.state.force
    &&& new.login_sessions == old.login_sessions
    &&& new.quota_attempts == old.quota_attempts
    &&& new.next_login_session == old.next_login_session
    &&& new.next_switch_generation == old.next_switch_generation
}

/// Cancelling is final and idempotent: once a refresh is cancelled, a second
/// cancel of the same generation does nothing, and the refresh no longer
/// takes results.
pub proof fn law_cancel_is_terminal_and_idempotent(
    s0: HangarService,
    s1: HangarService,
    s2: HangarService,
    g: u64,
    r1: bool,
    r2: bool,
)
    requires
        cancelled(s0, g, s1, r1),
        cancelled(s1, g, s2, r2),
        r1,
    ensures
        !r2,
        s2.state.phase == TaskPhase::Cancelled,
        !running(s1, g),
        !running(s2, g),
{
}

/// A closed service starts no refresh: the start answers 0 and changes
/// nothing.
pub proof fn law_closed_service_starts_no_refresh(s: HangarService, s2: HangarService, g: u64, force: bool)
    requires
        s.closed,
        HangarService::started(s, s2, g, force),
    ensures
        g == 0,
        s2 == s,
{
}

/// A newer refresh turns away the results of every older one: after a
/// refresh starts, no older generation is running.
pub proof fn law_newer_generation_rejects_late_results(
    s0: HangarService,
    s1: HangarService,
    g: u64,
    force: bool,
    older: u64,
)
    requires
        HangarService::started(s0, s1, g, force),
        !s0.closed,
        older <= s0.next_generation,
    ensures
        !running(s1, older),
        g > older,
{
}

/// A quota was requested for `id` less than a TTL before `now`.
pub open spec fn attempted_recently(attempts: Seq<(String, u64)>, id: Seq<char>, now: u64) -> bool {
    exists|i: int|
        0 <= i < attempts.len() && (#[trigger] attempts[i]).0@ == id && (forall|j: int|
            0 <= j < i ==> (#[trigger] attempts[j]).0@ != id) && now >= attempts[i].1 && now
            - attempts[i].1 < TTL_SECS
}

impl HangarService {
    /// Marks the card of `id` as loading in refresh generation `g`.
    pub fn mark_loading(&mut self, g: u64, id: &str) -> (r: bool)
        ensures
            r == (running(*old(self), g) && card_index(old(self).state.accounts@, id@)
                < old(self).state.accounts@.len()),
            !r ==> *final(self) == *old(self),
            r ==> final(self).state.accounts@ == old(self).state.accounts@.update(
                card_index(old(self).state.accounts@, id@),
                loading(old(self).state.accounts@[card_index(old(self).state.accounts@, id@)]),
            ),
            final(self).state.generation == old(self).state.generation,
            final(self).state.phase == old(self).state.phase,
            final(self).state.error_code == old(self).state.error_code,
            final(self).switch_state == old(self).switch_state,
            final(self).closed == old(self).closed,
            final(self).next_generation == old(self).next_generation,
    {
        if self.state.generation != g || self.state.phase != TaskPhase::Running {
            return false;
        }
        let i = find_card(&self.state.accounts, id);
        if i >= self.state.accounts.len() {
            return false;
        }
        let mut card = self.state.accounts[i].copy();
        card.quota_state = QuotaLoadState::Loading;
        self.state.accounts.set(i, card);
        true
    }

    /// Records the fetch result for the account `original_id` in refresh
    /// generation `g`: on success the account's refreshed snapshot and the
    /// quota fetched at `now`; on failure the old quota stays, marked stale
    /// and failed. A result for a replaced or finished generation, or for
    /// an account without a card, changes nothing.
    pub fn apply_quota_result(
        &mut self,
        g: u64,
        original_id: &str,
        result: Result<(Account, Quota), String>,
        now: u64,
    ) -> (r: bool)
        requires
            now <= i64::MAX,
            result matches Ok((_, q)) ==> summary_ok(q, now as i64),
        ensures
            r == (running(*old(self), g) && card_index(old(self).state.accounts@, original_id@)
                < old(self).state.accounts@.len()),
            !r ==> *final(self) == *old(self),
            r ==> {
                let i = card_index(old(self).state.accounts@, original_id@);
                let c = old(self).state.accounts@[i];
                final(self).state.accounts@ == old(self).state.accounts@.update(
                    i,
                    match result {
                        Ok((fresh, quota)) => fetched(c, fresh, quota, now),
                        Err(_) => failed(c),
                    },
                )
            },
            final(self).state.generation == old(self).state.generation,
            final(self).state.phase == old(self).state.phase,
            final(self).state.error_code == old(self).state.error_code,
            final(self).switch_state == old(self).switch_state,
            final(self).closed == old(self).closed,
            final(self).next_generation == old(self).next_generation,
    {
        if self.state.generation != g || self.state.phase != TaskPhase::Running {
            return false;
        }
        let i = find_card(&self.state.accounts, original_id);
        if i >= self.state.accounts.len() {
            return false;
        }
        let old_card = self.state.accounts[i].copy();
        let card = match result {
            Ok((fresh, quota)) => {
                let account = AccountRecord::from(
                    AccountSummary::from_account(&fresh, old_card.account.current, now),
                );
                let summary = QuotaSummary::from_quota(&quota, now as i64);
                let quota_state = if summary.weekly_remaining.is_some() {
                    QuotaLoadState::Success
                } else {
                    QuotaLoadState::Unknown
                };
                AccountCardRecord {
                    account,
                    quota: Some(QuotaRecord::from(summary)),
                    quota_state,
                    quota_fetched_at: Some(now as i64),
                    quota_is_fresh: true,
                    recommended: old_card.recommended,
                    error_code: None,
                }
            },
            Err(_) => AccountCardRecord {
                account: old_card.account,
                quota: old_card.quota,
                quota_state: QuotaLoadState::Failed,
                quota_fetched_at: old_card.quota_fetched_at,
                quota_is_fresh: false,
                recommended: old_card.recommended,
                error_code: Some(ErrorCode::External),
            },
        };
        self.state.accounts.set(i, card);
        true
    }

    /// Finishes refresh generation `g` while it is running: every card is
    /// marked exactly when it is the recommended account's.
    pub fn finish_success(&mut self, g: u64, recommended: Option<&str>)
        ensures
            !running(*old(self), g) ==> *final(self) == *old(self),
            running(*old(self), g) ==> final(self).state.phase == TaskPhase::Succeeded
                && final(self).state.accounts@.len() == old(self).state.accounts@.len()
                && forall|i: int|
                0 <= i < old(self).state.accounts@.len() ==> (#[trigger] final(self).state.accounts@[i])
                    == with_flag(
                    old(self).state.accounts@[i],
                    recommendation::str_opt(recommended) == Some(
                        old(self).state.accounts@[i].account.id@,
                    ),
                ),
            final(self).state.generation == old(self).state.generation,
            final(self).state.error_code == old(self).state.error_code,
            final(self).switch_state == old(self).switch_state,
            final(self).closed == old(self).closed,
            final(self).next_generation == old(self).next_generation,
    {
        if self.state.generation != g || self.state.phase != TaskPhase::Running {
            return ;
        }
        let mut cards: Vec<AccountCardRecord> = Vec::new();
        let mut i: usize = 0;
        while i < self.state.accounts.len()
            invariant
                i <= self.state.accounts.len(),
                cards@.len() == i,
                forall|k: int|
                    0 <= k < i ==> (#[trigger] cards@[k]) == with_flag(
                        self.state.accounts@[k],
                        recommendation::str_opt(recommended) == Some(self.state.accounts@[k].account.id@),
                    ),
            decreases self.state.accounts.len() - i,
        {
            let mut card = self.state.accounts[i].copy();
            card.recommended = match recommended {
                Some(id) => text::str_eq(id, card.account.id.as_str()),
                None => false,
            };
            cards.push(card);
            i = i + 1;
        }
        self.state.accounts = cards;
        self.state.phase = TaskPhase::Succeeded;
    }

    /// Fails refresh generation `g` while it is pending or running.
    pub fn finish_with_error(&mut self, g: u64, error: OperationErrorCode)
        ensures
            !(old(self).state.generation == g && busy(old(self).state.phase)) ==> *final(self)
                == *old(self),
            old(self).state.generation == g && busy(old(self).state.phase) ==> final(self).state.phase
                == TaskPhase::Failed && final(self).state.error_code == Some(error)
                && final(self).state.accounts == old(self).state.accounts,
            final(self).state.generation == old(self).state.generation,
            final(self).switch_state == old(self).switch_state,
            final(self).closed == old(self).closed,
    {
        if self.state.generation == g && matches!(
            self.state.phase,
            TaskPhase::Pending | TaskPhase::Running
        ) {
            self.state.phase = TaskPhase::Failed;
            self.state.error_code = Some(error);
        }
    }

    /// Whether the quota of `id` was requested less than a TTL ago.
    pub fn recently_attempted(&self, id: &str, now: u64) -> (r: bool)
        ensures
            r == attempted_recently(self.quota_attempts@, id@, now),
    {
        let mut i: usize = 0;
        while i < self.quota_attempts.len()
            invariant
                i <= self.quota_attempts.len(),
                forall|j: int| 0 <= j < i ==> (#[trigger] self.quota_attempts@[j]).0@ != id@,
            decreases self.quota_attempts.len() - i,
        {
            if text::str_eq(self.quota_attempts[i].0.as_str(), id) {
                let last = self.quota_attempts[i].1;
                let r = now >= last && now - last < TTL_SECS;
                proof {
                    assert forall|k: int|
                        0 <= k < self.quota_attempts@.len() && (#[trigger] self.quota_attempts@[k]).0@
                            == id@ && (forall|j: int|
                            0 <= j < k ==> (#[trigger] self.quota_attempts@[j]).0@ != id@) implies k
                        == i by {
                        if k > i {
                            assert(self.quota_attempts@[i as int].0@ == id@);
                        }
                    }
                }
                return r;
            }
            i = i + 1;
        }
        false
    }

    /// Whether a refresh fetches the quota of `id` now: when it is due
    /// and, unless forced, was not requested less than a TTL ago.
    pub fn should_fetch(&self, entry: Option<&Entry>, id: &str, now: u64, force: bool) -> (r: bool)
        ensures
            r == (quota_cache::due_spec(
                match entry {
                    Some(e) => Some(*e),
                    None => None,
                },
                now,
                force,
            ) && (force || !attempted_recently(self.quota_attempts@, id@, now))),
    {
        if !quota_cache::due(entry, now, force) {
            return false;
        }
        force || !self.recently_attempted(id, now)
    }

    /// Whether the running refresh fetches the account at `i` of the
    /// library: a usable account whose quota is due (every one when the
    /// refresh is forced) and, unless forced, not requested within a TTL.
    pub open spec fn fetch_wanted(self, accounts: Seq<Account>, cache: Seq<(String, Entry)>, i: int, now: u64) -> bool {
        &&& !accounts[i].stale
        &&& quota_cache::due_spec(first_value(cache, accounts[i].id@), now, self.state.force)
        &&& (self.state.force || !attempted_recently(self.quota_attempts@, accounts[i].id@, now))
    }

    /// The next account the refresh fetches, from index `from` on in library
    /// order; the number of accounts when none is left.
    pub fn next_fetch(&self, accounts: &Vec<Account>, cache: &Vec<(String, Entry)>, from: usize, now: u64) -> (r:
        usize)
        requires
            from <= accounts@.len(),
        ensures
            from <= r <= accounts@.len(),
            r < accounts@.len() ==> self.fetch_wanted(accounts@, cache@, r as int, now),
            forall|j: int| from <= j < r ==> !self.fetch_wanted(accounts@, cache@, j, now),
    {
        let mut i = from;
        while i < accounts.len()
            invariant
                from <= i <= accounts.len(),
                forall|j: int| from <= j < i ==> !self.fetch_wanted(accounts@, cache@, j, now),
            decreases accounts.len() - i,
        {
            if !accounts[i].stale {
                let entry = cache_entry(cache, accounts[i].id.as_str());
                if self.should_fetch(entry, accounts[i].id.as_str(), now, self.state.force) {
                    return i;
                }
            }
            i = i + 1;
        }
        i
    }

    /// Finishes refresh generation `g`: the account recommended over the
    /// quotas on hand (`quotas`: the fresh cached ones and those fetched) is
    /// marked; nothing changes when `g` no longer runs.
    pub fn finish_refresh(&mut self, g: u64, file: &AccountsFile, quotas: &Vec<(String, Quota)>) -> (rec:
        Option<Recommendation>)
        ensures
            recommend_spec(file.accounts@, shares(quotas@), opt_view(file.current_account_id), rec),
            !running(*old(self), g) ==> *final(self) == *old(self),
            running(*old(self), g) ==> final(self).state.phase == TaskPhase::Succeeded
                && final(self).state.accounts@.len() == old(self).state.accounts@.len()
                && forall|i: int|
                0 <= i < old(self).state.accounts@.len() ==> (#[trigger] final(self).state.accounts@[i])
                    == with_flag(
                    old(self).state.accounts@[i],
                    match rec {
                        Some(x) => x.account_id@ == old(self).state.accounts@[i].account.id@,
                        None => false,
                    },
                ),
            final(self).state.generation == old(self).state.generation,
            final(self).switch_state == old(self).switch_state,
            final(self).closed == old(self).closed,
    {
        let current = match &file.current_account_id {
            Some(c) => Some(c.as_str()),
            None => None,
        };
        let rec = recommendation::recommend(&file.accounts, current, quotas);
        match &rec {
            Some(x) => self.finish_success(g, Some(x.account_id.as_str())),
            None => self.finish_success(g, None),
        }
        rec
    }

    /// Records that the quota of `id` was requested at `now`.
    pub fn record_attempt(&mut self, id: &str, now: u64)
        ensures
            attempted_recently(final(self).quota_attempts@, id@, now) == (TTL_SECS > 0),
            forall|k: Seq<char>, t: u64|
                k != id@ ==> attempted_recently(final(self).quota_attempts@, k, t)
                    == attempted_recently(old(self).quota_attempts@, k, t),
            final(self).state == old(self).state,
            final(self).switch_state == old(self).switch_state,
            final(self).closed == old(self).closed,
    {
        let ghost before = self.quota_attempts@;
        let mut i: usize = 0;
        while i < self.quota_attempts.len()
            invariant
                i <= self.quota_attempts.len(),
                self.quota_attempts@ == before,
                before == old(self).quota_attempts@,
                self.state == old(self).state,
                self.switch_state == old(self).switch_state,
                self.closed == old(self).closed,
                forall|j: int| 0 <= j < i ==> (#[trigger] before[j]).0@ != id@,
            decreases self.quota_attempts.len() - i,
        {
            if text::str_eq(self.quota_attempts[i].0.as_str(), id) {
                let key = self.quota_attempts[i].0.clone();
                self.quota_attempts.set(i, (key, now));
                proof {
                    let after = self.quota_attempts@;
                    assert(after[i as int].0@ == id@ && after[i as int].1 == now);
                    assert forall|k: Seq<char>, t: u64|
                        k != id@ implies attempted_recently(after, k, t) == attempted_recently(
                        before,
                        k,
                        t,
                    ) by {
                        if attempted_recently(after, k, t) {
                            let w = choose|w: int|
                                0 <= w < after.len() && (#[trigger] after[w]).0@ == k && (forall|j: int|
                                    0 <= j < w ==> (#[trigger] after[j]).0@ != k) && t >= after[w].1 && t
                                    - after[w].1 < TTL_SECS;
                            assert(w != i);
                            assert(before[w] == after[w]);
                            assert forall|j: int| 0 <= j < w implies (#[trigger] before[j]).0@ != k by {
                                if j != i {
                                    assert(before[j] == after[j]);
                                }
                            }
                        }
                        if attempted_recently(before, k, t) {
                            let w = choose|w: int|
                                0 <= w < before.len() && (#[trigger] before[w]).0@ == k && (forall|j: int|
                                    0 <= j < w ==> (#[trigger] before[j]).0@ != k) && t >= before[w].1
                                    && t - before[w].1 < TTL_SECS;
                            assert(w != i);
                            assert(before[w] == after[w]);
                            assert forall|j: int| 0 <= j < w implies (#[trigger] after[j]).0@ != k by {
                                if j != i {
                                    assert(before[j] == after[j]);
                                }
                            }
                        }
                    }
                    assert forall|j: int| 0 <= j < i implies (#[trigger] after[j]).0@ != id@ by {
                        assert(before[j] == after[j]);
                    }
                }
                return ;
            }
            i = i + 1;
        }
        self.quota_attempts.push((text::to_owned(id), now));
        proof {
            let after = self.quota_attempts@;
            let n = before.len() as int;
            assert(after[n].0@ == id@);
            assert forall|j: int| 0 <= j < n implies (#[trigger] after[j]).0@ != id@ by {
                assert(before[j] == after[j]);
            }
            assert forall|k: Seq<char>, t: u64|
                k != id@ implies attempted_recently(after, k, t) == attempted_recently(before, k, t) by {
                if attempted_recently(after, k, t) {
                    let w = choose|w: int|
                        0 <= w < after.len() && (#[trigger] after[w]).0@ == k && (forall|j: int|
                            0 <= j < w ==> (#[trigger] after[j]).0@ != k) && t >= after[w].1 && t
                            - after[w].1 < TTL_SECS;
                    assert(w != n);
                    assert(before[w] == after[w]);
                    assert forall|j: int| 0 <= j < w implies (#[trigger] before[j]).0@ != k by {
                        assert(before[j] == after[j]);
                    }
                }
                if attempted_recently(before, k, t) {
                    let w = choose|w: int|
                        0 <= w < before.len() && (#[trigger] before[w]).0@ == k && (forall|j: int|
                            0 <= j < w ==> (#[trigger] before[j]).0@ != k) && t >= before[w].1 && t
                            - before[w].1 < TTL_SECS;
                    assert(before[w] == after[w]);
                    assert forall|j: int| 0 <= j < w implies (#[trigger] after[j]).0@ != k by {
                        assert(before[j] == after[j]);
                    }
                }
            }
        }
    }

    /// A closed service refuses calls with a state error.
    pub fn ensure_open(&self) -> (r: Result<(), BridgeError>)
        ensures
            self.closed ==> state_error(r, "Hangar 服务已关闭"@),
            !self.closed ==> r is Ok,
    {
        if self.closed {
            return Err(BridgeError::State { message: text::to_owned("Hangar 服务已关闭") });
        }
        Ok(())
    }

    /// Numbers a new login session, unless the service is closed.
    pub fn next_login(&mut self) -> (r: Result<u64, BridgeError>)
        requires
            old(self).next_login_session < u64::MAX,
        ensures
            old(self).closed ==> state_error(r, "Hangar 服务已关闭"@) && *final(self) == *old(self),
            !old(self).closed ==> r == Ok::<u64, BridgeError>((old(self).next_login_session + 1) as u64)
                && *final(self) == (HangarService {
                next_login_session: (old(self).next_login_session + 1) as u64,
                ..*old(self)
            }),
    {
        if self.closed {
            return Err(BridgeError::State { message: text::to_owned("Hangar 服务已关闭") });
        }
        self.next_login_session = self.next_login_session + 1;
        Ok(self.next_login_session)
    }

    /// Closes the service: later calls are refused, the current refresh is
    /// cancelled unless it already finished, and every login session is
    /// asked to stop.
    pub fn close(&mut self)
        ensures
            final(self).closed,
            final(self).state.generation == old(self).state.generation,
            old(self).state.phase.is_terminal_phase() ==> final(self).state.phase == old(self).state.phase,
            !old(self).state.phase.is_terminal_phase() ==> final(self).state.phase == TaskPhase::Cancelled,
            final(self).state.accounts == old(self).state.accounts,
            final(self).switch_state == old(self).switch_state,
            final(self).login_sessions@ == old(self).login_sessions@.map_values(
                |e: LoginSessionEntry| LoginSessionEntry { cancel_requested: true, ..e },
            ),
            final(self).state.error_code == old(self).state.error_code,
            final(self).state.force == old(self).state.force,
            final(self).next_generation == old(self).next_generation,
            final(self).next_switch_generation == old(self).next_switch_generation,
            final(self).next_login_session == old(self).next_login_session,
            final(self).quota_attempts == old(self).quota_attempts,
    {
        self.closed = true;
        let g = self.state.generation;
        let _ = self.cancel_refresh(g);
        let ghost before = self.login_sessions@;
        let mut rest: Vec<LoginSessionEntry> = Vec::new();
        std::mem::swap(&mut rest, &mut self.login_sessions);
        let mut done: Vec<LoginSessionEntry> = Vec::new();
        let n = rest.len();
        let mut k: usize = 0;
        while k < n
            invariant
                k <= n,
                n == before.len(),
                rest@ == before.subrange(k as int, n as int),
                done@ == before.subrange(0, k as int).map_values(
                    |e: LoginSessionEntry| LoginSessionEntry { cancel_requested: true, ..e },
                ),
            decreases n - k,
        {
            let mut e = rest.remove(0);
            e.cancel_requested = true;
            done.push(e);
            k = k + 1;
            assert(rest@ =~= before.subrange(k as int, n as int));
            assert(done@ =~= before.subrange(0, k as int).map_values(
                |e: LoginSessionEntry| LoginSessionEntry { cancel_requested: true, ..e },
            ));
        }
        assert(before.subrange(0, n as int) =~= before);
        self.login_sessions = done;
    }
}

/// The login sessions and what they do with their account.
impl HangarService {
    /// Registers a login session that was just started: it gets the next
    /// session number. A closed service refuses it.
    pub fn register_login(&mut self, mode: LoginMode) -> (r: Result<u64, BridgeError>)
        requires
            old(self).next_login_session < u64::MAX,
        ensures
            old(self).closed ==> state_error(r, "Hangar 服务已关闭"@) && *final(self) == *old(self),
            !old(self).closed ==> {
                &&& r == Ok::<u64, BridgeError>((old(self).next_login_session + 1) as u64)
                &&& final(self).next_login_session == old(self).next_login_session + 1
                &&& final(self).login_sessions@ == old(self).login_sessions@.push(
                    LoginSessionEntry {
                        session_id: (old(self).next_login_session + 1) as u64,
                        mode,
                        committed: false,
                        commit_error: None,
                        cancel_requested: false,
                    },
                )
                &&& final(self).state == old(self).state
                &&& final(self).switch_state == old(self).switch_state
                &&& final(self).closed == old(self).closed
            },
    {
        let id = match self.next_login() {
            Ok(id) => id,
            Err(e) => return Err(e),
        };
        self.login_sessions.push(
            LoginSessionEntry {
                session_id: id,
                mode,
                committed: false,
                commit_error: None,
                cancel_requested: false,
            },
        );
        Ok(id)
    }

    /// Registers a started login session that adds an account; the caller
    /// started the session and hands over the URL it opens.
    pub fn start_login(&mut self, authorization_url: String) -> (r: Result<LoginStart, BridgeError>)
        requires
            old(self).next_login_session < u64::MAX,
        ensures
            old(self).closed ==> state_error(r, "Hangar 服务已关闭"@) && *final(self) == *old(self),
            !old(self).closed ==> {
                &&& r matches Ok(s) && s.session_id == old(self).next_login_session + 1
                    && s.authorization_url == authorization_url
                &&& final(self).login_sessions@ == old(self).login_sessions@.push(
                    LoginSessionEntry {
                        session_id: (old(self).next_login_session + 1) as u64,
                        mode: LoginMode::Add,
                        committed: false,
                        commit_error: None,
                        cancel_requested: false,
                    },
                )
                &&& final(self).next_login_session == old(self).next_login_session + 1
            },
    {
        match self.register_login(LoginMode::Add) {
            Ok(session_id) => Ok(LoginStart { session_id, authorization_url }),
            Err(e) => Err(e),
        }
    }

    /// Registers a started login session that logs the account `account_id`
    /// in again; an account missing from the library is refused first.
    pub fn start_reauth(&mut self, file: &AccountsFile, account_id: String, authorization_url: String) -> (r:
        Result<LoginStart, BridgeError>)
        requires
            old(self).next_login_session < u64::MAX,
        ensures
            !(exists|i: int| 0 <= i < file.accounts@.len() && (#[trigger] file.accounts@[i]).id@ == account_id@)
                ==> state_error(r, "账号未找到: "@ + account_id@) && *final(self) == *old(self),
            (exists|i: int| 0 <= i < file.accounts@.len() && (#[trigger] file.accounts@[i]).id@ == account_id@)
                ==> {
                &&& old(self).closed ==> state_error(r, "Hangar 服务已关闭"@) && *final(self) == *old(self)
                &&& !old(self).closed ==> {
                    &&& r matches Ok(s) && s.session_id == old(self).next_login_session + 1
                        && s.authorization_url == authorization_url
                    &&& final(self).login_sessions@ == old(self).login_sessions@.push(
                        LoginSessionEntry {
                            session_id: (old(self).next_login_session + 1) as u64,
                            mode: LoginMode::Reauth(account_id),
                            committed: false,
                            commit_error: None,
                            cancel_requested: false,
                        },
                    )
                    &&& final(self).next_login_session == old(self).next_login_session + 1
                }
            },
    {
        match check_reauth_account(file, account_id.as_str()) {
            Ok(()) => {},
            Err(e) => return Err(e),
        }
        match self.register_login(LoginMode::Reauth(account_id)) {
            Ok(session_id) => Ok(LoginStart { session_id, authorization_url }),
            Err(e) => Err(e),
        }
    }

    /// What polling a login session reports, once its account, if it was
    /// due (`needs_commit`), has been stored and the outcome recorded; an
    /// unknown session is a state error.
    pub fn poll_login(&self, session_id: u64, phase: LoginPhase, session_message: Option<String>) -> (r:
        Result<LoginSnapshot, BridgeError>)
        ensures
            session_index(self.login_sessions@, session_id) < self.login_sessions@.len() ==> (r matches Ok(
                snap,
            ) && login_snapshot_spec(
                self.login_sessions@[session_index(self.login_sessions@, session_id)],
                phase,
                session_message,
                snap,
            )),
            session_index(self.login_sessions@, session_id) >= self.login_sessions@.len() ==> state_error(
                r,
                no_session_message(session_id),
            ),
    {
        proof {
            lemma_session_index(self.login_sessions@, session_id);
        }
        let found = self.login_index(session_id);
        let count = self.login_sessions.len();
        match found {
            Ok(i) => {
                assert(session_index(self.login_sessions@, session_id) < count);
                assert(found == Ok::<usize, BridgeError>(i));
                assert(i == session_index(self.login_sessions@, session_id) as usize);
                assert(i as int == session_index(self.login_sessions@, session_id));
                Ok(self.login_snapshot(i, phase, session_message))
            },
            Err(e) => Err(e),
        }
    }

    /// The offline self-check over the gathered facts, unless the service
    /// is closed.
    pub fn doctor(&self, facts: &DoctorFacts, binary_version: &str) -> (r: Result<DoctorReport, BridgeError>)
        requires
            facts_ok(*facts),
        ensures
            self.closed ==> state_error(r, "Hangar 服务已关闭"@),
            !self.closed ==> (r matches Ok(report) && report.lines@.map_values(|s: String| s@)
                == doctor_spec(*facts, binary_version@).0 && report.issue_count as int == doctor_spec(
                *facts,
                binary_version@,
            ).1),
    {
        match self.ensure_open() {
            Ok(()) => {},
            Err(e) => return Err(e),
        }
        let (lines, issue_count) = doctor_lines(facts, binary_version);
        Ok(DoctorReport { lines, issue_count: issue_count as u64 })
    }

    /// The index of a login session; a state error when there is none.
    pub fn login_index(&self, session_id: u64) -> (r: Result<usize, BridgeError>)
        ensures
            session_index(self.login_sessions@, session_id) < self.login_sessions@.len() ==> r
                == Ok::<usize, BridgeError>(session_index(self.login_sessions@, session_id) as usize),
            session_index(self.login_sessions@, session_id) >= self.login_sessions@.len() ==> state_error(
                r,
                no_session_message(session_id),
            ),
    {
        proof {
            lemma_session_index(self.login_sessions@, session_id);
        }
        let mut i: usize = 0;
        while i < self.login_sessions.len()
            invariant
                i <= self.login_sessions.len(),
                forall|j: int| 0 <= j < i ==> (#[trigger] self.login_sessions@[j]).session_id != session_id,
                0 <= session_index(self.login_sessions@, session_id) <= self.login_sessions@.len(),
                session_index(self.login_sessions@, session_id) < self.login_sessions@.len() ==> self.login_sessions@[session_index(self.login_sessions@, session_id)].session_id == session_id,
                forall|j: int| 0 <= j < session_index(self.login_sessions@, session_id) ==> (#[trigger] self.login_sessions@[j]).session_id != session_id,
            decreases self.login_sessions.len() - i,
        {
            if self.login_sessions[i].session_id == session_id {
                assert(session_index(self.login_sessions@, session_id) == i) by {
                    let k = session_index(self.login_sessions@, session_id);
                    assert(self.login_sessions@[i as int].session_id == session_id);
                    if k < i {
                        assert(self.login_sessions@[k].session_id == session_id);
                    }
                }
                return Ok(i);
            }
            i = i + 1;
        }
        Err(BridgeError::State { message: text::cat("OAuth 会话不存在: ", text::fmt_u64(session_id).as_str()) })
    }

    /// Deletes an account of the loaded library, unless the service is
    /// closed; the account in use, or an unknown one, is refused with a
    /// state error.
    pub fn delete_account(&self, file: &mut AccountsFile, account_id: &str) -> (r: Result<(), BridgeError>)
        ensures
            self.closed ==> state_error(r, "Hangar 服务已关闭"@) && *final(file) == *old(file),
            !self.closed ==> match r {
                Ok(()) => {
                    &&& exists|i: int|
                        account::first_with_id(old(file).accounts@, account_id@, i)
                            && final(file).accounts@ == old(file).accounts@.remove(i)
                    &&& !old(file).is_current(account_id@)
                    &&& final(file).current_account_id == old(file).current_account_id
                },
                Err(e) => {
                    &&& kind_of_bridge(e) == AccountErrorKind::State
                    &&& *final(file) == *old(file)
                    &&& !account::has_id(old(file).accounts@, account_id@) || old(file).is_current(
                        account_id@,
                    )
                },
            },
    {
        match self.ensure_open() {
            Ok(()) => {},
            Err(e) => return Err(e),
        }
        match account::delete_account(file, account_id) {
            Ok(_) => Ok(()),
            Err(e) => Err(account_error(e)),
        }
    }

    /// Asks a login session to stop: false when there is none or it was
    /// already asked. The caller stops the session itself.
    pub fn cancel_login(&mut self, session_id: u64) -> (r: bool)
        ensures
            r == (session_index(old(self).login_sessions@, session_id) < old(self).login_sessions@.len()
                && !old(self).login_sessions@[session_index(old(self).login_sessions@, session_id)].cancel_requested),
            r ==> final(self).login_sessions@ == old(self).login_sessions@.update(
                session_index(old(self).login_sessions@, session_id),
                LoginSessionEntry {
                    cancel_requested: true,
                    ..old(self).login_sessions@[session_index(old(self).login_sessions@, session_id)]
                },
            ),
            !r ==> final(self).login_sessions@ == old(self).login_sessions@,
            final(self).state == old(self).state,
            final(self).switch_state == old(self).switch_state,
            final(self).closed == old(self).closed,
            final(self).next_login_session == old(self).next_login_session,
    {
        proof {
            lemma_session_index(self.login_sessions@, session_id);
        }
        let found = self.login_index(session_id);
        let count = self.login_sessions.len();
        match found {
            Ok(i) => {
                assert(session_index(self.login_sessions@, session_id) < count);
                assert(found == Ok::<usize, BridgeError>(i));
                assert(i == session_index(self.login_sessions@, session_id) as usize);
                if self.login_sessions[i].cancel_requested {
                    return false;
                }
                let ghost before = self.login_sessions@;
                let mut sessions: Vec<LoginSessionEntry> = Vec::new();
                std::mem::swap(&mut sessions, &mut self.login_sessions);
                let mut e = sessions.remove(i);
                e.cancel_requested = true;
                sessions.insert(i, e);
                assert(sessions@ =~= before.update(
                    i as int,
                    LoginSessionEntry { cancel_requested: true, ..before[i as int] },
                ));
                self.login_sessions = sessions;
                true
            },
            Err(_) => false,
        }
    }

    /// Checks a callback URL pasted for a login session and gives the code
    /// that session then takes: an unknown session is a state error, a
    /// refused URL an authentication error with its reason.
    pub fn submit_callback(&self, session_id: u64, callback_url: &str, expected_state: &str) -> (r: Result<
        String,
        BridgeError,
    >)
        ensures
            session_index(self.login_sessions@, session_id) >= self.login_sessions@.len() ==> state_error(
                r,
                no_session_message(session_id),
            ),
            session_index(self.login_sessions@, session_id) < self.login_sessions@.len() ==> match oauth::callback_result(
                callback_url@,
                expected_state@,
            ) {
                Ok(c) => r matches Ok(code) && code@ == c,
                Err(m) => r matches Err(BridgeError::Auth { message }) && message@ == m,
            },
    {
        match self.login_index(session_id) {
            Ok(_) => match oauth::parse_code_from_callback_url(callback_url, expected_state) {
                Ok(code) => Ok(code),
                Err(message) => Err(BridgeError::Auth { message }),
            },
            Err(e) => Err(e),
        }
    }

    /// Forgets a login session; false when there was none. The caller
    /// cancels the session itself.
    pub fn release_login(&mut self, session_id: u64) -> (r: bool)
        ensures
            r == (session_index(old(self).login_sessions@, session_id) < old(self).login_sessions@.len()),
            r ==> final(self).login_sessions@ == old(self).login_sessions@.remove(
                session_index(old(self).login_sessions@, session_id),
            ),
            !r ==> final(self).login_sessions@ == old(self).login_sessions@,
            final(self).state == old(self).state,
            final(self).switch_state == old(self).switch_state,
            final(self).closed == old(self).closed,
            final(self).next_login_session == old(self).next_login_session,
    {
        proof {
            lemma_session_index(self.login_sessions@, session_id);
        }
        let found = self.login_index(session_id);
        let count = self.login_sessions.len();
        match found {
            Ok(i) => {
                assert(session_index(self.login_sessions@, session_id) < self.login_sessions@.len());
                assert(found == Ok::<usize, BridgeError>(i));
                assert(i == session_index(self.login_sessions@, session_id) as usize);
                assert(i as int == session_index(self.login_sessions@, session_id));
                let _gone = self.login_sessions.remove(i);
                true
            },
            Err(_) => false,
        }
    }

    /// Whether polling the session at `i` must now store its account: the
    /// session succeeded and nothing was stored yet.
    pub fn needs_commit(&self, i: usize, phase: LoginPhase) -> (r: bool)
        requires
            i < self.login_sessions@.len(),
        ensures
            r == (phase == LoginPhase::Succeeded && !self.login_sessions@[i as int].committed),
    {
        phase == LoginPhase::Succeeded && !self.login_sessions[i].committed
    }

    /// Records how storing the account of the session at `i` went.
    pub fn record_commit(&mut self, i: usize, result: Result<(), BridgeError>)
        requires
            i < old(self).login_sessions@.len(),
        ensures
            final(self).login_sessions@.len() == old(self).login_sessions@.len(),
            forall|j: int| 0 <= j < old(self).login_sessions@.len() && j != i ==> #[trigger] final(self).login_sessions@[j] == old(self).login_sessions@[j],
            final(self).login_sessions@[i as int].session_id == old(self).login_sessions@[i as int].session_id,
            final(self).login_sessions@[i as int].mode == old(self).login_sessions@[i as int].mode,
            match result {
                Ok(()) => final(self).login_sessions@[i as int].committed
                    && final(self).login_sessions@[i as int].commit_error == old(self).login_sessions@[i as int].commit_error,
                Err(e) => final(self).login_sessions@[i as int].commit_error == Some(e)
                    && final(self).login_sessions@[i as int].committed == old(self).login_sessions@[i as int].committed,
            },
            final(self).state == old(self).state,
            final(self).switch_state == old(self).switch_state,
            final(self).closed == old(self).closed,
            final(self).next_login_session == old(self).next_login_session,
    {
        let mut sessions: Vec<LoginSessionEntry> = Vec::new();
        std::mem::swap(&mut sessions, &mut self.login_sessions);
        let ghost before = sessions@;
        let mut e = sessions.remove(i);
        match result {
            Ok(()) => {
                e.committed = true;
            },
            Err(err) => {
                e.commit_error = Some(err);
            },
        }
        sessions.insert(i, e);
        assert forall|j: int| 0 <= j < before.len() && j != i implies #[trigger] sessions@[j] == before[j] by {}
        self.login_sessions = sessions;
    }

    /// What polling the session at `i` reports, given the session's own
    /// phase and message.
    pub fn login_snapshot(&self, i: usize, phase: LoginPhase, session_message: Option<String>) -> (r:
        LoginSnapshot)
        requires
            i < self.login_sessions@.len(),
        ensures
            login_snapshot_spec(self.login_sessions@[i as int], phase, session_message, r),
    {
        let e = &self.login_sessions[i];
        match &e.commit_error {
            Some(err) => LoginSnapshot {
                session_id: e.session_id,
                phase: LoginPhase::Failed,
                error_code: Some(err.code()),
                message: Some(err.to_message()),
            },
            None => LoginSnapshot {
                session_id: e.session_id,
                phase,
                error_code: if phase == LoginPhase::Failed {
                    Some(ErrorCode::Auth)
                } else {
                    None
                },
                message: session_message,
            },
        }
    }
}

/// Before logging an account in again: it must be in the library.
pub fn check_reauth_account(file: &AccountsFile, account_id: &str) -> (r: Result<(), BridgeError>)
    ensures
        (exists|i: int| 0 <= i < file.accounts@.len() && (#[trigger] file.accounts@[i]).id@ == account_id@) ==> r is Ok,
        !(exists|i: int| 0 <= i < file.accounts@.len() && (#[trigger] file.accounts@[i]).id@ == account_id@) ==> state_error(
            r,
            "账号未找到: "@ + account_id@,
        ),
{
    let mut i: usize = 0;
    while i < file.accounts.len()
        invariant
            i <= file.accounts.len(),
            forall|j: int| 0 <= j < i ==> (#[trigger] file.accounts@[j]).id@ != account_id@,
        decreases file.accounts.len() - i,
    {
        if text::str_eq(file.accounts[i].id.as_str(), account_id) {
            return Ok(());
        }
        i = i + 1;
    }
    Err(BridgeError::State { message: text::cat("账号未找到: ", account_id) })
}

/// The accounts a refresh visits, in library order: every account that is
/// not stale.
pub fn refresh_order(accounts: &Vec<Account>) -> (r: Vec<usize>)
    ensures
        forall|k: int| 0 <= k < r@.len() ==> (#[trigger] r@[k]) < accounts@.len() && !accounts@[r@[k] as int].stale,
        forall|k: int, l: int| 0 <= k < l < r@.len() ==> #[trigger] r@[k] < #[trigger] r@[l],
        forall|i: int|
            0 <= i < accounts@.len() && !(#[trigger] accounts@[i]).stale ==> exists|k: int|
                0 <= k < r@.len() && r@[k] == i,
{
    let mut out: Vec<usize> = Vec::new();
    let mut i: usize = 0;
    while i < accounts.len()
        invariant
            i <= accounts.len(),
            forall|k: int| 0 <= k < out@.len() ==> (#[trigger] out@[k]) < i && !accounts@[out@[k] as int].stale,
            forall|k: int, l: int| 0 <= k < l < out@.len() ==> #[trigger] out@[k] < #[trigger] out@[l],
            forall|j: int|
                0 <= j < i && !(#[trigger] accounts@[j]).stale ==> exists|k: int|
                    0 <= k < out@.len() && out@[k] == j,
        decreases accounts.len() - i,
    {
        if !accounts[i].stale {
            let ghost before = out@;
            out.push(i);
            proof {
                assert forall|j: int| 0 <= j < i + 1 && !(#[trigger] accounts@[j]).stale implies exists|k: int|
                    0 <= k < out@.len() && out@[k] == j by {
                    if j == i {
                        assert(out@[out@.len() - 1] == i);
                    } else {
                        let w = choose|w: int| 0 <= w < before.len() && before[w] == j;
                        assert(out@[w] == before[w]);
                    }
                }
            }
        }
        i = i + 1;
    }
    out
}

} // verus!
