//! The rebuildable, credential-free quota snapshot that the command line,
//! the terminal UI and the native front ends share: its freshness rule and
//! how a fetched quota is merged in. Reading and writing the file is the
//! caller's.

use crate::quota::{self, NamedWindow, Quota, QuotaWindow};
use crate::summary::reset_computable;
use crate::text;
use vstd::prelude::*;

verus! {

/// How long a fetched quota counts as fresh, in seconds.
pub const TTL_SECS: u64 = 1800;

/// The cache file's schema version; a file of another version is ignored.
pub const SCHEMA_VERSION: u32 = 1;

/// A cache file larger than this is ignored.
pub const MAX_FILE_BYTES: u64 = 1048576;

/// One account's cached quota and when it was fetched.
#[derive(Debug, Clone)]
pub struct Entry {
    pub fetched_at: u64,
    pub quota: Quota,
}

impl Entry {
    /// Fetched (not at 0), not in the future, and less than the TTL ago.
    pub open spec fn is_fresh_spec(self, now: u64) -> bool {
        self.fetched_at > 0 && self.fetched_at <= now && now - self.fetched_at < TTL_SECS
    }

    pub fn is_fresh(&self, now: u64) -> (r: bool)
        ensures
            r == self.is_fresh_spec(now),
    {
        self.fetched_at > 0 && self.fetched_at <= now && now - self.fetched_at < TTL_SECS
    }
}

/// The system clock in Unix seconds (`SystemTime::now` since the epoch, 0
/// before it). Nothing is stated of the value: it is the time.
#[verifier::external_body]
pub fn now_secs() -> u64 {
    std::time::SystemTime::now().duration_since(std::time::UNIX_EPOCH).unwrap_or_default().as_secs()
}

/// An account's quota must be fetched: when forced, when nothing is cached,
/// or when the cached one is not fresh.
pub open spec fn due_spec(entry: Option<Entry>, now: u64, force: bool) -> bool {
    force || match entry {
        Some(e) => !e.is_fresh_spec(now),
        None => true,
    }
}

pub fn due(entry: Option<&Entry>, now: u64, force: bool) -> (r: bool)
    ensures
        r == due_spec(
            match entry {
                Some(e) => Some(*e),
                None => None,
            },
            now,
            force,
        ),
{
    force || match entry {
        Some(e) => !e.is_fresh(now),
        None => true,
    }
}

/// A loaded cache file is used: not too large and of this schema.
pub fn usable_file(len: u64, schema_version: u32) -> (r: bool)
    ensures
        r == (len <= MAX_FILE_BYTES && schema_version == SCHEMA_VERSION),
{
    len <= MAX_FILE_BYTES && schema_version == SCHEMA_VERSION
}

/// `w` is `w0` with its reset time fixed at `now`: the absolute time
/// kept, the relative one dropped.
pub open spec fn window_fixed(w0: QuotaWindow, w: QuotaWindow, now: i64) -> bool {
    &&& w.remaining == w0.remaining
    &&& w.limit_secs == w0.limit_secs
    &&& w.reset_in_secs is None
    &&& match w.reset_at {
        Some(t) => quota::reset_at_spec(w0, now) == Some(t as int),
        None => quota::reset_at_spec(w0, now) is None,
    }
}

/// `q` is `q0` with every window's reset time fixed at `now`.
pub open spec fn reset_times_fixed(q0: Quota, q: Quota, now: i64) -> bool {
    &&& q.plan == q0.plan
    &&& q.reset_available == q0.reset_available
    &&& q.reset_detail == q0.reset_detail
    &&& q.windows@.len() == q0.windows@.len()
    &&& forall|i: int|
        0 <= i < q.windows@.len() ==> (#[trigger] q.windows@[i]).label == q0.windows@[i].label
            && window_fixed(q0.windows@[i].window, q.windows@[i].window, now)
}

/// Every window's reset time is computable at `now`.
pub open spec fn all_computable(q: Quota, now: i64) -> bool {
    forall|i: int| 0 <= i < q.windows@.len() ==> reset_computable(#[trigger] q.windows@[i].window, now)
}

/// Whether a window's reset time can be fixed at `now` without overflow.
pub fn window_computable(w: &QuotaWindow, now: i64) -> (r: bool)
    ensures
        r == reset_computable(*w, now),
{
    match w.reset_at {
        Some(_) => true,
        None => match w.reset_in_secs {
            Some(s) => now.checked_add(s).is_some(),
            None => true,
        },
    }
}

/// Whether every window's reset time can be fixed at `now` without
/// overflow.
pub fn is_computable(q: &Quota, now: i64) -> (r: bool)
    ensures
        r == all_computable(*q, now),
{
    let mut i: usize = 0;
    while i < q.windows.len()
        invariant
            i <= q.windows.len(),
            forall|j: int| 0 <= j < i ==> reset_computable(#[trigger] q.windows@[j].window, now),
        decreases q.windows.len() - i,
    {
        if !window_computable(&q.windows[i].window, now) {
            return false;
        }
        i = i + 1;
    }
    true
}

/// The reset time of a window at `now`, when it can be computed without
/// overflow.
pub fn reset_time(w: &QuotaWindow, now: i64) -> (r: Option<i64>)
    ensures
        reset_computable(*w, now) ==> match r {
            Some(t) => quota::reset_at_spec(*w, now) == Some(t as int),
            None => quota::reset_at_spec(*w, now) is None,
        },
        !reset_computable(*w, now) ==> r is None,
{
    if window_computable(w, now) {
        quota::reset_at_ts(w, now)
    } else {
        None
    }
}

/// Fixes the reset times when a request completes, so that a relative
/// reset is not added to a later clock after a restart.
pub fn normalize_reset_times(quota: &mut Quota, now: i64)
    requires
        all_computable(*old(quota), now),
    ensures
        reset_times_fixed(*old(quota), *final(quota), now),
{
    let ghost q0 = *quota;
    let mut out: Vec<NamedWindow> = Vec::new();
    let mut i: usize = 0;
    while i < quota.windows.len()
        invariant
            q0 == *quota,
            all_computable(q0, now),
            i <= quota.windows.len(),
            out@.len() == i,
            forall|k: int|
                0 <= k < i ==> (#[trigger] out@[k]).label == q0.windows@[k].label && window_fixed(
                    q0.windows@[k].window,
                    out@[k].window,
                    now,
                ),
        decreases quota.windows.len() - i,
    {
        let w = &quota.windows[i];
        assert(reset_computable(q0.windows@[i as int].window, now));
        let reset_at = quota::reset_at_ts(&w.window, now);
        out.push(
            NamedWindow {
                label: w.label.clone(),
                window: QuotaWindow {
                    remaining: w.window.remaining,
                    limit_secs: w.window.limit_secs,
                    reset_in_secs: None,
                    reset_at,
                },
            },
        );
        i = i + 1;
    }
    quota.windows = out;
}

/// No account id occurs twice.
pub open spec fn unique_keys(es: Seq<(String, Entry)>) -> bool {
    forall|i: int, j: int| 0 <= i < j < es.len() ==> (#[trigger] es[i]).0@ != (#[trigger] es[j]).0@
}

/// `k` is cached at `i`.
pub open spec fn key_at(es: Seq<(String, Entry)>, k: Seq<char>, i: int) -> bool {
    0 <= i < es.len() && es[i].0@ == k
}

/// The cache holds a newer quota for `k` than one fetched at `t`.
pub open spec fn holds_newer(es: Seq<(String, Entry)>, k: Seq<char>, t: u64) -> bool {
    exists|i: int| key_at(es, k, i) && es[i].1.fetched_at > t
}

/// `e` is the entry stored for a quota `q` fetched at `t`.
pub open spec fn stored_entry(e: Entry, q: Quota, t: u64) -> bool {
    e.fetched_at == t && reset_times_fixed(q, e.quota, t as i64)
}

/// A quota fetched at `fetched_at` is not due again, unless forced, until
/// the TTL has passed.
pub proof fn law_fetched_quota_waits_for_the_ttl(e: Entry, q: Quota, fetched_at: u64, now: u64)
    requires
        stored_entry(e, q, fetched_at),
        0 < fetched_at <= now,
        now - fetched_at < TTL_SECS,
    ensures
        !due_spec(Some(e), now, false),
        due_spec(Some(e), now, true),
        fetched_at + TTL_SECS <= u64::MAX ==> due_spec(Some(e), (fetched_at + TTL_SECS) as u64, false),
{
}

fn key_index(es: &Vec<(String, Entry)>, k: &str) -> (r: Option<usize>)
    ensures
        match r {
            Some(i) => key_at(es@, k@, i as int),
            None => forall|i: int| 0 <= i < es@.len() ==> !key_at(es@, k@, i),
        },
{
    let mut i: usize = 0;
    while i < es.len()
        invariant
            i <= es.len(),
            forall|j: int| 0 <= j < i ==> !key_at(es@, k@, j),
        decreases es.len() - i,
    {
        if text::str_eq(es[i].0.as_str(), k) {
            return Some(i);
        }
        i = i + 1;
    }
    None
}

/// Merges one account's fetched quota into the cache entries. A newer
/// entry of the account is kept as it is (`false`); otherwise the quota,
/// its reset times fixed at `fetched_at`, replaces the account's entry or
/// is added after the others (`true`). Other accounts are untouched.
pub fn merge_success(
    entries: &mut Vec<(String, Entry)>,
    account_id: &str,
    quota: Quota,
    fetched_at: u64,
) -> (stored: bool)
    requires
        unique_keys(old(entries)@),
        fetched_at <= i64::MAX,
        all_computable(quota, fetched_at as i64),
    ensures
        unique_keys(final(entries)@),
        stored == !holds_newer(old(entries)@, account_id@, fetched_at),
        !stored ==> final(entries)@ == old(entries)@,
        stored ==> forall|i: int|
            key_at(old(entries)@, account_id@, i) ==> final(entries)@.len() == old(entries)@.len()
                && final(entries)@[i].0 == old(entries)@[i].0 && stored_entry(
                final(entries)@[i].1,
                quota,
                fetched_at,
            ) && forall|j: int|
                0 <= j < old(entries)@.len() && j != i ==> #[trigger] final(entries)@[j]
                    == old(entries)@[j],
        stored && (forall|i: int| 0 <= i < old(entries)@.len() ==> !key_at(old(entries)@, account_id@, i))
            ==> final(entries)@.len() == old(entries)@.len() + 1 && final(entries)@.subrange(
            0,
            old(entries)@.len() as int,
        ) == old(entries)@ && final(entries)@.last().0@ == account_id@ && stored_entry(
            final(entries)@.last().1,
            quota,
            fetched_at,
        ),
{
    let ghost old_es = entries@;
    let idx = key_index(entries, account_id);
    match idx {
        Some(i) => {
            if entries[i].1.fetched_at > fetched_at {
                return false;
            }
            proof {
                assert forall|j: int| key_at(old_es, account_id@, j) implies j == i by {
                    if j != i {
                        if j < i {
                            assert(old_es[j].0@ != old_es[i as int].0@);
                        } else {
                            assert(old_es[i as int].0@ != old_es[j].0@);
                        }
                    }
                }
            }
        },
        None => {},
    }
    let mut q = quota;
    normalize_reset_times(&mut q, fetched_at as i64);
    let entry = Entry { fetched_at, quota: q };
    match idx {
        Some(i) => {
            let key = entries[i].0.clone();
            entries.set(i, (key, entry));
            proof {
                assert forall|a: int, b: int| 0 <= a < b < entries@.len() implies (
                #[trigger] entries@[a]).0@ != (#[trigger] entries@[b]).0@ by {
                    assert(old_es[a].0@ != old_es[b].0@);
                }
            }
        },
        None => {
            entries.push((text::to_owned(account_id), entry));
            proof {
                assert(entries@.subrange(0, old_es.len() as int) =~= old_es);
                assert forall|a: int, b: int| 0 <= a < b < entries@.len() implies (
                #[trigger] entries@[a]).0@ != (#[trigger] entries@[b]).0@ by {
                    if b < old_es.len() {
                        assert(old_es[a].0@ != old_es[b].0@);
                    } else {
                        assert(!key_at(old_es, account_id@, a));
                    }
                }
            }
        },
    }
    true
}

} // verus!
