//! Choosing an account by a full id or by a normalised email that names
//! exactly one account.

use crate::account::{has_id, first_with_id, normalize_email, normalized, Account, AccountsFile, find_by_id};
use crate::text;
use vstd::prelude::*;

verus! {

/// The indices, in order, of the accounts whose normalised email is `e`.
pub open spec fn email_matches(accs: Seq<Account>, e: Seq<char>) -> Seq<int>
    decreases accs.len(),
{
    if accs.len() == 0 {
        Seq::empty()
    } else {
        email_matches(accs.drop_last(), e) + if normalized(accs.last().email@) == e {
            seq![accs.len() - 1]
        } else {
            Seq::empty()
        }
    }
}

/// The ids of the accounts at `idx`, separated by `", "`.
pub open spec fn joined_ids(accs: Seq<Account>, idx: Seq<int>) -> Seq<char>
    decreases idx.len(),
{
    if idx.len() == 0 {
        Seq::empty()
    } else {
        joined_ids(accs, idx.drop_last()) + (if idx.len() > 1 {
            ", "@
        } else {
            Seq::empty()
        }) + accs[idx.last()].id@
    }
}

/// What a selector resolves to: `Ok(i)` for the account at `i`, or the
/// error message.
pub open spec fn resolve_spec(accs: Seq<Account>, selector: Seq<char>) -> Result<int, Seq<char>> {
    let s = text::trim_spec(selector);
    if s.len() == 0 {
        Err("账号选择器不能为空"@)
    } else if has_id(accs, s) {
        Ok(choose|i: int| first_with_id(accs, s, i))
    } else {
        let m = email_matches(accs, normalized(s));
        if m.len() == 0 {
            Err("未找到账号: "@ + s)
        } else if m.len() == 1 {
            Ok(m[0])
        } else {
            Err(
                "邮箱 "@ + s + " 对应 "@ + text::dec(m.len() as int) + " 个账号，请改用完整 ID："@
                    + joined_ids(accs, m),
            )
        }
    }
}

proof fn lemma_first_with_id_unique(accs: Seq<Account>, id: Seq<char>, i: int, j: int)
    requires
        first_with_id(accs, id, i),
        first_with_id(accs, id, j),
    ensures
        i == j,
{
    if i < j {
        assert(accs[i].id@ == id);
    }
    if j < i {
        assert(accs[j].id@ == id);
    }
}

/// Resolves an account by full id, else by a normalised email that names
/// exactly one account.
pub fn resolve<'a>(file: &'a AccountsFile, selector: &str) -> (r: Result<&'a Account, String>)
    ensures
        match resolve_spec(file.accounts@, selector@) {
            Ok(i) => r matches Ok(a) && 0 <= i < file.accounts@.len() && *a == file.accounts@[i],
            Err(m) => r matches Err(e) && e@ == m,
        },
{
    let t = text::trim(selector);
    if t.as_str().is_empty() {
        return Err(text::to_owned("账号选择器不能为空"));
    }
    match find_by_id(&file.accounts, t.as_str()) {
        Some(i) => {
            proof {
                let c = choose|k: int| first_with_id(file.accounts@, t@, k);
                lemma_first_with_id_unique(file.accounts@, t@, i as int, c);
            }
            return Ok(&file.accounts[i]);
        },
        None => {},
    }
    let email = normalize_email(t.as_str());
    let ghost accs = file.accounts@;
    let mut m: Vec<usize> = Vec::new();
    let mut ids = String::new();
    let mut i: usize = 0;
    while i < file.accounts.len()
        invariant
            i <= file.accounts.len(),
            accs == file.accounts@,
            m@.map_values(|x: usize| x as int) == email_matches(accs.subrange(0, i as int), email@),
            ids@ == joined_ids(accs, email_matches(accs.subrange(0, i as int), email@)),
            forall|k: int| 0 <= k < m@.len() ==> #[trigger] m@[k] < i,
        decreases file.accounts.len() - i,
    {
        let ghost pre = accs.subrange(0, i as int);
        assert(accs.subrange(0, i + 1).drop_last() =~= pre);
        let e = normalize_email(file.accounts[i].email.as_str());
        if text::str_eq(e.as_str(), email.as_str()) {
            if m.len() > 0 {
                text::push_str(&mut ids, ", ");
            }
            text::push_str(&mut ids, file.accounts[i].id.as_str());
            m.push(i);
            proof {
                let mm = email_matches(accs.subrange(0, i + 1), email@);
                assert(mm =~= email_matches(pre, email@).push(i as int));
                assert(mm.drop_last() =~= email_matches(pre, email@));
            }
        } else {
            assert(email_matches(accs.subrange(0, i + 1), email@) =~= email_matches(pre, email@));
        }
        i = i + 1;
        assert(m@.map_values(|x: usize| x as int) =~= email_matches(accs.subrange(0, i as int), email@));
    }
    assert(accs.subrange(0, accs.len() as int) =~= accs);
    if m.len() == 0 {
        return Err(text::cat("未找到账号: ", t.as_str()));
    }
    if m.len() == 1 {
        assert(m@.map_values(|x: usize| x as int)[0] == m@[0] as int);
        return Ok(&file.accounts[m[0]]);
    }
    let mut msg = text::cat("邮箱 ", t.as_str());
    text::push_str(&mut msg, " 对应 ");
    text::push_str(&mut msg, text::fmt_u64(m.len() as u64).as_str());
    text::push_str(&mut msg, " 个账号，请改用完整 ID：");
    text::push_str(&mut msg, ids.as_str());
    Err(msg)
}

/// What the current account resolves to.
pub open spec fn current_spec(file: AccountsFile) -> Result<int, Seq<char>> {
    match file.current_account_id {
        None => Err("当前没有激活账号"@),
        Some(id) => if has_id(file.accounts@, id@) {
            Ok(choose|i: int| first_with_id(file.accounts@, id@, i))
        } else {
            Err("当前账号指向不存在的 ID: "@ + id@)
        },
    }
}

/// The current account.
pub fn current(file: &AccountsFile) -> (r: Result<&Account, String>)
    ensures
        match current_spec(*file) {
            Ok(i) => r matches Ok(a) && 0 <= i < file.accounts@.len() && *a == file.accounts@[i],
            Err(m) => r matches Err(e) && e@ == m,
        },
{
    let id = match &file.current_account_id {
        Some(id) => id,
        None => return Err(text::to_owned("当前没有激活账号")),
    };
    match find_by_id(&file.accounts, id.as_str()) {
        Some(i) => {
            proof {
                let c = choose|k: int| first_with_id(file.accounts@, id@, k);
                lemma_first_with_id_unique(file.accounts@, id@, i as int, c);
            }
            Ok(&file.accounts[i])
        },
        None => Err(text::cat("当前账号指向不存在的 ID: ", id.as_str())),
    }
}

} // verus!
