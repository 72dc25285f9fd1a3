//! Which account to use next, from this session's weekly remaining quota.
//! Nothing here fetches, refreshes, writes or switches.

use crate::account::Account;
use crate::quota::Quota;
use crate::summary::{self, first_weekly_at, no_weekly};
use crate::text;
use vstd::prelude::*;

verus! {

/// The current account is kept while the best one is at most this many
/// points ahead.
pub const KEEP_CURRENT_THRESHOLD: i32 = 10;

/// Why an account is recommended.
#[derive(Debug, Clone, Copy, PartialEq, Eq, Structural)]
pub enum Reason {
    KeepCurrent,
    HigherWeeklyRemaining,
}

/// The recommended account.
#[derive(Debug, Clone, PartialEq, Eq)]
pub struct Recommendation {
    pub account_id: String,
    pub email: String,
    pub weekly_remaining: i32,
    pub reason: Reason,
}

/// The remaining share of a quota's first weekly window.
pub open spec fn weekly_spec(q: Quota) -> Option<i32> {
    if exists|i: int| first_weekly_at(q.windows@, i) {
        q.windows@[choose|i: int| first_weekly_at(q.windows@, i)].window.remaining
    } else {
        None
    }
}

proof fn lemma_first_weekly_unique(q: Quota, i: int)
    requires
        first_weekly_at(q.windows@, i),
    ensures
        weekly_spec(q) == q.windows@[i].window.remaining,
{
    let j = choose|j: int| first_weekly_at(q.windows@, j);
    if j < i {
        assert(!summary::is_weekly(q.windows@[j]));
    }
    if i < j {
        assert(!summary::is_weekly(q.windows@[i]));
    }
}

/// The weekly remaining share of a quota (`None` without a weekly window).
pub fn weekly_remaining(quota: &Quota) -> (r: Option<i32>)
    ensures
        r == weekly_spec(*quota),
{
    match summary::first_weekly(&quota.windows) {
        Some(i) => {
            proof {
                lemma_first_weekly_unique(*quota, i as int);
            }
            quota.windows[i].window.remaining
        },
        None => None,
    }
}

/// The weekly share of each cached quota, by account id.
pub open spec fn shares(qs: Seq<(String, Quota)>) -> Seq<(Seq<char>, Option<i32>)> {
    qs.map_values(|p: (String, Quota)| (p.0@, weekly_spec(p.1)))
}

/// The weekly share cached for an account id (the first entry with that
/// id); `None` when nothing is cached for it.
pub open spec fn share_for(sh: Seq<(Seq<char>, Option<i32>)>, id: Seq<char>) -> Option<Option<i32>>
    decreases sh.len(),
{
    if sh.len() == 0 {
        None
    } else if sh[0].0 == id {
        Some(sh[0].1)
    } else {
        share_for(sh.drop_first(), id)
    }
}

fn share_lookup(qs: &Vec<(String, Quota)>, id: &str) -> (r: Option<Option<i32>>)
    ensures
        r == share_for(shares(qs@), id@),
{
    let ghost sh = shares(qs@);
    let mut i: usize = 0;
    assert(sh.subrange(0, sh.len() as int) =~= sh);
    while i < qs.len()
        invariant
            i <= qs.len(),
            sh == shares(qs@),
            share_for(sh, id@) == share_for(sh.subrange(i as int, sh.len() as int), id@),
        decreases qs.len() - i,
    {
        assert(sh.subrange(i as int, sh.len() as int).drop_first() =~= sh.subrange(
            i + 1,
            sh.len() as int,
        ));
        if text::str_eq(qs[i].0.as_str(), id) {
            return Some(weekly_remaining(&qs[i].1));
        }
        i = i + 1;
    }
    None
}

/// The weekly remaining share by which account `i` takes part: not stale,
/// with a cached quota that has a known weekly share.
pub open spec fn eligible(accs: Seq<Account>, sh: Seq<(Seq<char>, Option<i32>)>, i: int) -> Option<i32> {
    if accs[i].stale {
        None
    } else {
        match share_for(sh, accs[i].id@) {
            Some(w) => w,
            None => None,
        }
    }
}

/// Account `i` is the best: the highest share, the first of equals.
pub open spec fn is_best(accs: Seq<Account>, qs: Seq<(Seq<char>, Option<i32>)>, i: int, r: i32) -> bool {
    &&& 0 <= i < accs.len()
    &&& eligible(accs, qs, i) == Some(r)
    &&& forall|j: int| 0 <= j < accs.len() && (#[trigger] eligible(accs, qs, j)) is Some ==> eligible(accs, qs, j)->0 <= r
    &&& forall|j: int| 0 <= j < i && (#[trigger] eligible(accs, qs, j)) is Some ==> eligible(accs, qs, j)->0 < r
}

/// Account `i` is the (last) eligible account with the current id.
pub open spec fn is_current_at(
    accs: Seq<Account>,
    qs: Seq<(Seq<char>, Option<i32>)>,
    current: Option<Seq<char>>,
    i: int,
    r: i32,
) -> bool {
    &&& 0 <= i < accs.len()
    &&& eligible(accs, qs, i) == Some(r)
    &&& current == Some(accs[i].id@)
    &&& forall|j: int| i < j < accs.len() && (#[trigger] eligible(accs, qs, j)) is Some ==> current != Some(accs[j].id@)
}

/// No account takes part.
pub open spec fn none_eligible(accs: Seq<Account>, qs: Seq<(Seq<char>, Option<i32>)>) -> bool {
    forall|j: int| 0 <= j < accs.len() ==> (#[trigger] eligible(accs, qs, j)) is None
}

/// `rec` names account `i` with share `r` for `reason`.
pub open spec fn names(rec: Recommendation, a: Account, r: i32, reason: Reason) -> bool {
    rec.account_id@ == a.id@ && rec.email@ == a.email@ && rec.weekly_remaining == r && rec.reason == reason
}

/// The view of an optional string slice.
pub open spec fn str_opt(s: Option<&str>) -> Option<Seq<char>> {
    match s {
        Some(c) => Some(c@),
        None => None,
    }
}

/// Some eligible account with the current id trails the best share `br`
/// by at most the threshold.
pub open spec fn keeps_current(
    accs: Seq<Account>,
    qs: Seq<(Seq<char>, Option<i32>)>,
    current: Option<Seq<char>>,
    br: i32,
) -> bool {
    exists|k: int, cr: i32| #[trigger] is_current_at(accs, qs, current, k, cr) && br - cr <= 10
}

/// `rec` is the recommendation when account `b` is the best with share
/// `br`.
pub open spec fn recommended(
    accs: Seq<Account>,
    qs: Seq<(Seq<char>, Option<i32>)>,
    current: Option<Seq<char>>,
    b: int,
    br: i32,
    rec: Recommendation,
) -> bool {
    &&& is_best(accs, qs, b, br)
    &&& if keeps_current(accs, qs, current, br) {
        exists|k: int, cr: i32|
            #[trigger] is_current_at(accs, qs, current, k, cr) && names(
                rec,
                accs[k],
                cr,
                Reason::KeepCurrent,
            )
    } else {
        names(rec, accs[b], br, Reason::HigherWeeklyRemaining)
    }
}

/// `r` is the recommendation among `accs` with the weekly shares `sh`.
pub open spec fn recommend_spec(
    accs: Seq<Account>,
    sh: Seq<(Seq<char>, Option<i32>)>,
    current: Option<Seq<char>>,
    r: Option<Recommendation>,
) -> bool {
    match r {
        None => none_eligible(accs, sh),
        Some(rec) => exists|b: int, br: i32| #[trigger] recommended(accs, sh, current, b, br, rec),
    }
}

proof fn lemma_current_at_unique(
    accs: Seq<Account>,
    qs: Seq<(Seq<char>, Option<i32>)>,
    current: Option<Seq<char>>,
    k1: int,
    c1: i32,
    k2: int,
    c2: i32,
)
    requires
        is_current_at(accs, qs, current, k1, c1),
        is_current_at(accs, qs, current, k2, c2),
    ensures
        k1 == k2,
        c1 == c2,
{
    if k1 < k2 {
        assert(eligible(accs, qs, k2) is Some);
    } else if k2 < k1 {
        assert(eligible(accs, qs, k1) is Some);
    }
}

/// Only an account that takes part is recommended: it is in the library,
/// not stale, and recommended with its own known weekly share.
pub proof fn law_recommends_only_eligible_accounts(
    accs: Seq<Account>,
    sh: Seq<(Seq<char>, Option<i32>)>,
    current: Option<Seq<char>>,
    rec: Recommendation,
)
    requires
        recommend_spec(accs, sh, current, Some(rec)),
    ensures
        exists|i: int|
            0 <= i < accs.len() && (#[trigger] accs[i]).id@ == rec.account_id@ && !accs[i].stale
                && eligible(accs, sh, i) == Some(rec.weekly_remaining),
{
    let (b, br) = choose|b: int, br: i32| #[trigger] recommended(accs, sh, current, b, br, rec);
    if keeps_current(accs, sh, current, br) {
        let (k, cr) = choose|k: int, cr: i32|
            #[trigger] is_current_at(accs, sh, current, k, cr) && names(
                rec,
                accs[k],
                cr,
                Reason::KeepCurrent,
            );
        assert(accs[k].id@ == rec.account_id@);
    } else {
        assert(accs[b].id@ == rec.account_id@);
    }
}

/// The account in use is kept while no account is more than the threshold
/// ahead of it.
pub proof fn law_keeps_current_within_threshold(
    accs: Seq<Account>,
    sh: Seq<(Seq<char>, Option<i32>)>,
    current: Option<Seq<char>>,
    k: int,
    cr: i32,
    r: Option<Recommendation>,
)
    requires
        is_current_at(accs, sh, current, k, cr),
        forall|j: int| 0 <= j < accs.len() && (#[trigger] eligible(accs, sh, j)) is Some ==> eligible(accs, sh, j)->0 - cr <= 10,
        recommend_spec(accs, sh, current, r),
    ensures
        r matches Some(rec) && rec.reason == Reason::KeepCurrent && rec.account_id@ == accs[k].id@
            && rec.weekly_remaining == cr,
{
    assert(eligible(accs, sh, k) is Some);
    match r {
        Some(rec) => {
            let (b, br) = choose|b: int, br: i32| #[trigger] recommended(accs, sh, current, b, br, rec);
            assert(eligible(accs, sh, b) is Some);
            assert(is_current_at(accs, sh, current, k, cr) && br - cr <= 10);
            assert(keeps_current(accs, sh, current, br));
            let (k2, c2) = choose|k2: int, c2: i32|
                #[trigger] is_current_at(accs, sh, current, k2, c2) && names(
                    rec,
                    accs[k2],
                    c2,
                    Reason::KeepCurrent,
                );
            lemma_current_at_unique(accs, sh, current, k, cr, k2, c2);
        },
        None => {},
    }
}

/// An account more than the threshold ahead of the one in use is
/// recommended instead: the best account, for a higher weekly share.
pub proof fn law_switches_when_gap_exceeds_threshold(
    accs: Seq<Account>,
    sh: Seq<(Seq<char>, Option<i32>)>,
    current: Option<Seq<char>>,
    k: int,
    cr: i32,
    j: int,
    r: Option<Recommendation>,
)
    requires
        is_current_at(accs, sh, current, k, cr),
        0 <= j < accs.len(),
        eligible(accs, sh, j) matches Some(w) && w - cr > 10,
        recommend_spec(accs, sh, current, r),
    ensures
        r matches Some(rec) && rec.reason == Reason::HigherWeeklyRemaining && rec.weekly_remaining - cr > 10
            && exists|b: int| is_best(accs, sh, b, rec.weekly_remaining) && #[trigger] accs[b].id@ == rec.account_id@,
{
    match r {
        Some(rec) => {
            let (b, br) = choose|b: int, br: i32| #[trigger] recommended(accs, sh, current, b, br, rec);
            assert(eligible(accs, sh, j) is Some);
            if keeps_current(accs, sh, current, br) {
                let (k2, c2) = choose|k2: int, c2: i32|
                    #[trigger] is_current_at(accs, sh, current, k2, c2) && br - c2 <= 10;
                lemma_current_at_unique(accs, sh, current, k, cr, k2, c2);
                assert(false);
            }
            assert(accs[b].id@ == rec.account_id@);
        },
        None => {
            assert(eligible(accs, sh, j) is Some);
        },
    }
}

/// A recommendation is made exactly when some account takes part.
pub proof fn law_recommends_when_some_account_takes_part(
    accs: Seq<Account>,
    sh: Seq<(Seq<char>, Option<i32>)>,
    current: Option<Seq<char>>,
    r: Option<Recommendation>,
)
    requires
        recommend_spec(accs, sh, current, r),
    ensures
        r is None <==> none_eligible(accs, sh),
{
    match r {
        Some(rec) => {
            let (b, br) = choose|b: int, br: i32| #[trigger] recommended(accs, sh, current, b, br, rec);
            assert(eligible(accs, sh, b) is Some);
        },
        None => {},
    }
}

/// Without an account in use that takes part, the first account with the
/// highest weekly share is recommended, for that share.
pub proof fn law_without_current_the_first_best_is_recommended(
    accs: Seq<Account>,
    sh: Seq<(Seq<char>, Option<i32>)>,
    current: Option<Seq<char>>,
    rec: Recommendation,
)
    requires
        recommend_spec(accs, sh, current, Some(rec)),
        forall|k: int| 0 <= k < accs.len() && (#[trigger] eligible(accs, sh, k)) is Some ==> current != Some(accs[k].id@),
    ensures
        rec.reason == Reason::HigherWeeklyRemaining,
        exists|b: int| is_best(accs, sh, b, rec.weekly_remaining) && #[trigger] accs[b].id@ == rec.account_id@,
{
    let (b, br) = choose|b: int, br: i32| #[trigger] recommended(accs, sh, current, b, br, rec);
    if keeps_current(accs, sh, current, br) {
        let (k, cr) = choose|k: int, cr: i32| #[trigger] is_current_at(accs, sh, current, k, cr) && br - cr <= 10;
        assert(eligible(accs, sh, k) is Some);
        assert(false);
    }
    assert(accs[b].id@ == rec.account_id@);
}

/// Recommends the account with the highest weekly remaining share; the
/// current account is kept while the best is at most
/// `KEEP_CURRENT_THRESHOLD` points ahead. Stale accounts and accounts
/// without a known weekly share take no part; `None` when none does.
pub fn recommend(accounts: &Vec<Account>, current: Option<&str>, quotas: &Vec<(String, Quota)>) -> (r:
    Option<Recommendation>)
    ensures
        recommend_spec(accounts@, shares(quotas@), str_opt(current), r),
{
    let ghost accs = accounts@;
    let ghost qs = shares(quotas@);
    let ghost cur = str_opt(current);
    let mut best: Option<(usize, i32)> = None;
    let mut cand: Option<(usize, i32)> = None;
    let mut i: usize = 0;
    while i < accounts.len()
        invariant
            i <= accounts.len(),
            accs == accounts@,
            qs == shares(quotas@),
            cur == match current {
                Some(c) => Some(c@),
                None => None,
            },
            match best {
                Some((b, br)) => b < i && eligible(accs, qs, b as int) == Some(br) && (forall|j: int|
                    0 <= j < i && (#[trigger] eligible(accs, qs, j)) is Some ==> eligible(accs, qs, j)->0
                        <= br) && (forall|j: int|
                    0 <= j < b && (#[trigger] eligible(accs, qs, j)) is Some ==> eligible(accs, qs, j)->0
                        < br),
                None => forall|j: int| 0 <= j < i ==> (#[trigger] eligible(accs, qs, j)) is None,
            },
            match cand {
                Some((k, cr)) => k < i && eligible(accs, qs, k as int) == Some(cr) && cur == Some(
                    accs[k as int].id@,
                ) && (forall|j: int|
                    k < j < i && (#[trigger] eligible(accs, qs, j)) is Some ==> cur != Some(
                        accs[j].id@,
                    )),
                None => forall|j: int|
                    0 <= j < i && (#[trigger] eligible(accs, qs, j)) is Some ==> cur != Some(
                        accs[j].id@,
                    ),
            },
        decreases accounts.len() - i,
    {
        let a = &accounts[i];
        let rem: Option<i32> = if a.stale {
            None
        } else {
            match share_lookup(quotas, a.id.as_str()) {
                Some(w) => w,
                None => None,
            }
        };
        assert(rem == eligible(accs, qs, i as int));
        match rem {
            Some(r) => {
                let is_cur = match current {
                    Some(c) => text::str_eq(a.id.as_str(), c),
                    None => false,
                };
                if is_cur {
                    cand = Some((i, r));
                }
                let better = match best {
                    Some((_, br)) => r > br,
                    None => true,
                };
                if better {
                    best = Some((i, r));
                }
            },
            None => {},
        }
        i = i + 1;
    }
    let (b, br) = match best {
        Some(x) => x,
        None => return None,
    };
    assert(is_best(accs, qs, b as int, br));
    match cand {
        Some((k, cr)) => {
            assert(is_current_at(accs, qs, cur, k as int, cr));
            if br as i64 - cr as i64 <= KEEP_CURRENT_THRESHOLD as i64 {
                let rec = Recommendation {
                    account_id: accounts[k].id.clone(),
                    email: accounts[k].email.clone(),
                    weekly_remaining: cr,
                    reason: Reason::KeepCurrent,
                };
                assert(is_current_at(accs, qs, cur, k as int, cr) && br - cr <= 10);
                assert(names(rec, accs[k as int], cr, Reason::KeepCurrent));
                assert(recommended(accs, qs, cur, b as int, br, rec));
                return Some(rec);
            }
            proof {
                assert forall|k2: int, cr2: i32|
                    is_current_at(accs, qs, cur, k2, cr2) implies k2 == k && cr2 == cr by {
                    if k2 < k {
                        assert(eligible(accs, qs, k as int) is Some);
                    }
                    if k < k2 {
                        assert(eligible(accs, qs, k2) is Some);
                    }
                }
            }
        },
        None => {
            proof {
                assert forall|k2: int, cr2: i32| !is_current_at(accs, qs, cur, k2, cr2) by {
                    if is_current_at(accs, qs, cur, k2, cr2) {
                        assert(eligible(accs, qs, k2) is Some);
                    }
                }
            }
        },
    }
    let rec = Recommendation {
        account_id: accounts[b].id.clone(),
        email: accounts[b].email.clone(),
        weekly_remaining: br,
        reason: Reason::HigherWeeklyRemaining,
    };
    assert(recommended(accs, qs, cur, b as int, br, rec));
    Some(rec)
}

} // verus!
