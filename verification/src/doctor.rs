//! The offline self-check: what it reports of the account library, its
//! permissions, each account's credentials, the official `auth.json`, the
//! `config.toml` routes, the lock and the update check. Gathering the
//! facts (files, permissions, clock, time zone) is the caller's; nothing
//! here reads, writes or connects.

use crate::account::{self, id_token_email, normalized, opt_view, Account, AccountsFile};
use crate::json::{self, JsonDoc};
use crate::quota;
use crate::text;
use crate::token_health::{self, AccessTokenState};
use crate::updater;
use vstd::prelude::*;

verus! {

/// What the caller found on disk and on the clock.
pub struct DoctorFacts {
    /// The library path, as it is displayed.
    pub accounts_path: String,
    /// The library, or why it could not be loaded.
    pub accounts: Result<AccountsFile, String>,
    /// The local time-zone offset (seconds east of UTC) at each account's
    /// expiry, in library order.
    pub expiry_offsets: Vec<i64>,
    pub backup_exists: bool,
    /// The library file's permission bits: `None` where permissions are
    /// not checked, `Some(None)` when the file is missing.
    pub file_mode: Option<Option<u32>>,
    /// The library directory's permission bits: `None` where not checked,
    /// `Some(None)` when unreadable.
    pub dir_mode: Option<Option<u32>>,
    /// The official `auth.json` text, when it could be read.
    pub auth_json: Option<String>,
    /// The official `config.toml` text, when it could be read.
    pub config_toml: Option<String>,
    /// The age in seconds of a lock file, when one exists.
    pub lock_age: Option<u64>,
    /// When updates were last checked, with the offset at that time.
    pub last_check: Option<(u64, i64)>,
    pub now: u64,
}

/// `✅ ` before a message.
pub open spec fn ok_line(m: Seq<char>) -> Seq<char> {
    "✅ "@ + m
}

/// `⚠ ` before a message.
pub open spec fn warn_line(m: Seq<char>) -> Seq<char> {
    "⚠ "@ + m
}

/// `✗ ` before a message.
pub open spec fn err_line(m: Seq<char>) -> Seq<char> {
    "✗ "@ + m
}

fn ok(out: &mut Vec<String>, m: &str)
    ensures
        final(out)@.len() == old(out)@.len() + 1,
        forall|i: int| 0 <= i < old(out)@.len() ==> final(out)@[i] == old(out)@[i],
        final(out)@.last()@ == ok_line(m@),
{
    out.push(text::cat("✅ ", m));
}

fn warn(out: &mut Vec<String>, m: &str)
    ensures
        final(out)@.len() == old(out)@.len() + 1,
        forall|i: int| 0 <= i < old(out)@.len() ==> final(out)@[i] == old(out)@[i],
        final(out)@.last()@ == warn_line(m@),
{
    out.push(text::cat("⚠ ", m));
}

fn err(out: &mut Vec<String>, m: &str)
    ensures
        final(out)@.len() == old(out)@.len() + 1,
        forall|i: int| 0 <= i < old(out)@.len() ==> final(out)@[i] == old(out)@[i],
        final(out)@.last()@ == err_line(m@),
{
    out.push(text::cat("✗ ", m));
}

/// Octal digits of a natural number (`{:o}`).
pub open spec fn oct(n: nat) -> Seq<char>
    decreases n,
{
    if n < 8 {
        seq![text::digit_char(n as int)]
    } else {
        oct(n / 8).push(text::digit_char((n % 8) as int))
    }
}

fn push_oct(s: &mut String, n: u32)
    ensures
        final(s)@ == old(s)@ + oct(n as nat),
    decreases n,
{
    if n >= 8 {
        push_oct(s, n / 8);
        text::push_char(s, oct_digit(n % 8));
    } else {
        text::push_char(s, oct_digit(n));
    }
}

fn oct_digit(d: u32) -> (c: char)
    requires
        d < 8,
    ensures
        c == text::digit_char(d as int),
{
    if d == 0 {
        '0'
    } else if d == 1 {
        '1'
    } else if d == 2 {
        '2'
    } else if d == 3 {
        '3'
    } else if d == 4 {
        '4'
    } else if d == 5 {
        '5'
    } else if d == 6 {
        '6'
    } else {
        '7'
    }
}

/// The lines about permissions.
pub open spec fn perm_lines(file_mode: Option<Option<u32>>, dir_mode: Option<Option<u32>>) -> Seq<
    Seq<char>,
> {
    let f = match file_mode {
        None => Seq::empty(),
        Some(None) => seq![warn_line("accounts.json 不存在（尚未创建）"@)],
        Some(Some(m)) => if m == 0o600 {
            seq![ok_line("accounts.json 权限 600"@)]
        } else {
            seq![warn_line("accounts.json 权限 "@ + oct(m as nat) + "（建议 600）"@)]
        },
    };
    let d = match dir_mode {
        None => Seq::empty(),
        Some(None) => Seq::empty(),
        Some(Some(m)) => if m == 0o700 {
            seq![ok_line("账号库目录权限 700"@)]
        } else {
            seq![warn_line("账号库目录权限 "@ + oct(m as nat) + "（建议 700）"@)]
        },
    };
    f + d
}

fn push_perm_lines(out: &mut Vec<String>, file_mode: Option<Option<u32>>, dir_mode: Option<Option<u32>>)
    ensures
        final(out)@.map_values(|s: String| s@) == old(out)@.map_values(|s: String| s@) + perm_lines(
            file_mode,
            dir_mode,
        ),
{
    let ghost start = out@.map_values(|s: String| s@);
    match file_mode {
        None => {},
        Some(None) => warn(out, "accounts.json 不存在（尚未创建）"),
        Some(Some(m)) => if m == 0o600 {
            ok(out, "accounts.json 权限 600");
        } else {
            let mut s = text::to_owned("accounts.json 权限 ");
            push_oct(&mut s, m);
            text::push_str(&mut s, "（建议 600）");
            warn(out, s.as_str());
        },
    }
    let ghost mid = out@.map_values(|s: String| s@);
    assert(mid =~= start + match file_mode {
        None => Seq::<Seq<char>>::empty(),
        Some(None) => seq![warn_line("accounts.json 不存在（尚未创建）"@)],
        Some(Some(m)) => if m == 0o600 {
            seq![ok_line("accounts.json 权限 600"@)]
        } else {
            seq![warn_line("accounts.json 权限 "@ + oct(m as nat) + "（建议 600）"@)]
        },
    });
    match dir_mode {
        None => {},
        Some(None) => {},
        Some(Some(m)) => if m == 0o700 {
            ok(out, "账号库目录权限 700");
        } else {
            let mut s = text::to_owned("账号库目录权限 ");
            push_oct(&mut s, m);
            text::push_str(&mut s, "（建议 700）");
            warn(out, s.as_str());
        },
    }
    assert(out@.map_values(|s: String| s@) =~= start + perm_lines(file_mode, dir_mode));
}

/// `parts` joined with `sep`.
pub open spec fn joined(parts: Seq<Seq<char>>, sep: Seq<char>) -> Seq<char>
    decreases parts.len(),
{
    if parts.len() == 0 {
        Seq::empty()
    } else if parts.len() == 1 {
        parts[0]
    } else {
        joined(parts.drop_last(), sep) + sep + parts.last()
    }
}

/// What an account's credentials lack.
pub open spec fn account_issues(a: Account) -> Seq<Seq<char>> {
    (if text::trim_spec(a.access_token@).len() == 0 {
        seq!["缺 access_token"@]
    } else {
        Seq::empty()
    }) + (if text::trim_spec(a.refresh_token@).len() == 0 {
        seq!["缺 refresh_token（无法静默刷新）"@]
    } else {
        Seq::empty()
    }) + (if (match opt_view(a.account_id) {
        Some(x) => text::trim_spec(x).len() == 0,
        None => true,
    }) {
        seq!["缺 account_id（配额查询可能不准）"@]
    } else {
        Seq::empty()
    })
}

/// What an account's access token state says, with an expiry shown in
/// the zone `offset` seconds east of UTC.
pub open spec fn expiry_text(h: token_health::TokenHealth, offset: i64) -> Seq<char> {
    match h.access {
        AccessTokenState::Missing => "AT 缺失"@,
        AccessTokenState::Expired => "AT 已过期（切换前必须刷新）"@,
        AccessTokenState::Expiring => "AT 即将过期（切换前必须刷新）"@,
        AccessTokenState::Fresh => "AT 至 "@ + quota::local_time_text(
            match h.expires_at {
                Some(t) => t as int,
                None => 0,
            } + offset,
        ),
        AccessTokenState::Unknown => "AT 有效期未知"@,
    }
}

/// The health of an account at `now`.
pub open spec fn health_at(a: Account, now: u64) -> token_health::TokenHealth {
    token_health::assess_spec(a.access_token@, a.refresh_token@, a.expires_at, a.stale, now)
}

/// The expiry shown for an account can be placed in its zone.
pub open spec fn expiry_showable(a: Account, now: u64, offset: i64) -> bool {
    let h = health_at(a, now);
    h.access is Fresh ==> i64::MIN <= match h.expires_at {
        Some(t) => t as int,
        None => 0,
    } + offset <= i64::MAX
}

/// The line of one account.
pub open spec fn account_line(a: Account, now: u64, offset: i64) -> Seq<char> {
    let exp = expiry_text(health_at(a, now), offset);
    let issues = account_issues(a);
    if a.stale {
        err_line(a.email@ + "：已失效，用「复活」重新登录"@)
    } else if issues.len() == 0 {
        ok_line(a.email@ + "："@ + exp + "，"@ + "凭据完整"@)
    } else {
        warn_line(a.email@ + "："@ + exp + "，"@ + joined(issues, "；"@))
    }
}

fn join_issues(parts: &Vec<&str>) -> (r: String)
    ensures
        r@ == joined(parts@.map_values(|p: &str| p@), "；"@),
{
    let ghost v = parts@.map_values(|p: &str| p@);
    let mut s = String::new();
    let mut i: usize = 0;
    while i < parts.len()
        invariant
            i <= parts.len(),
            v == parts@.map_values(|p: &str| p@),
            s@ == joined(v.subrange(0, i as int), "；"@),
        decreases parts.len() - i,
    {
        let ghost pre = v.subrange(0, i as int);
        assert(v.subrange(0, i + 1).drop_last() =~= pre);
        if i > 0 {
            text::push_str(&mut s, "；");
        }
        text::push_str(&mut s, parts[i]);
        i = i + 1;
        proof {
            if i == 1 {
                assert(s@ =~= v.subrange(0, 1)[0]);
            }
        }
    }
    assert(v.subrange(0, v.len() as int) =~= v);
    s
}

fn account_line_of(a: &Account, now: u64, offset: i64) -> (r: String)
    requires
        expiry_showable(*a, now, offset),
    ensures
        r@ == account_line(*a, now, offset),
{
    let mut issues: Vec<&str> = Vec::new();
    if text::trim(a.access_token.as_str()).as_str().is_empty() {
        issues.push("缺 access_token");
    }
    if text::trim(a.refresh_token.as_str()).as_str().is_empty() {
        issues.push("缺 refresh_token（无法静默刷新）");
    }
    let no_id = match &a.account_id {
        Some(x) => text::trim(x.as_str()).as_str().is_empty(),
        None => true,
    };
    if no_id {
        issues.push("缺 account_id（配额查询可能不准）");
    }
    assert(issues@.map_values(|p: &str| p@) =~= account_issues(*a));
    let h = token_health::assess(
        a.access_token.as_str(),
        a.refresh_token.as_str(),
        a.expires_at,
        a.stale,
        now,
    );
    let exp = match h.access {
        AccessTokenState::Missing => text::to_owned("AT 缺失"),
        AccessTokenState::Expired => text::to_owned("AT 已过期（切换前必须刷新）"),
        AccessTokenState::Expiring => text::to_owned("AT 即将过期（切换前必须刷新）"),
        AccessTokenState::Fresh => {
            let t: i64 = match h.expires_at {
                Some(t) => t,
                None => 0,
            };
            let shown = quota::fmt_ts_local(t, offset);
            text::cat("AT 至 ", shown.as_str())
        },
        AccessTokenState::Unknown => text::to_owned("AT 有效期未知"),
    };
    if a.stale {
        let mut s = text::cat("✗ ", a.email.as_str());
        text::push_str(&mut s, "：已失效，用「复活」重新登录");
        s
    } else if issues.len() == 0 {
        let mut s = text::cat("✅ ", a.email.as_str());
        text::push_str(&mut s, "：");
        text::push_str(&mut s, exp.as_str());
        text::push_str(&mut s, "，");
        text::push_str(&mut s, "凭据完整");
        s
    } else {
        let mut s = text::cat("⚠ ", a.email.as_str());
        text::push_str(&mut s, "：");
        text::push_str(&mut s, exp.as_str());
        text::push_str(&mut s, "，");
        text::push_str(&mut s, join_issues(&issues).as_str());
        s
    }
}

/// A `config.toml` line that routes to a custom provider.
pub open spec fn route_line(l: Seq<char>) -> bool {
    !text::has_prefix(l, "#"@) && (text::has_prefix(l, "model_provider"@) || text::has_prefix(
        l,
        "openai_base_url"@,
    )) && text::has_substring(l, "="@)
}

/// Some line of a `config.toml` routes to a custom provider.
pub open spec fn custom_route(cfg: Seq<char>) -> bool {
    exists|i: int|
        0 <= i < updater::lines_of(cfg).len() && route_line(
            text::trim_start_spec(#[trigger] updater::lines_of(cfg)[i]),
        )
}

/// The line about `config.toml`, when it could be read.
pub open spec fn config_lines(cfg: Option<Seq<char>>) -> Seq<Seq<char>> {
    match cfg {
        None => Seq::empty(),
        Some(c) => if custom_route(c) {
            seq![warn_line("config.toml 含自定义 provider 路由，OAuth 切换时将被清理"@)]
        } else {
            seq![ok_line("config.toml 无冲突路由"@)]
        },
    }
}

fn has_custom_route(cfg: &str) -> (r: bool)
    ensures
        r == custom_route(cfg@),
{
    let ls = updater::lines(cfg);
    let ghost v = ls@.map_values(|x: String| x@);
    let mut i: usize = 0;
    while i < ls.len()
        invariant
            i <= ls.len(),
            v == ls@.map_values(|x: String| x@),
            v == updater::lines_of(cfg@),
            forall|k: int| 0 <= k < i ==> !route_line(text::trim_start_spec(#[trigger] v[k])),
        decreases ls.len() - i,
    {
        let t = text::trim_start(ls[i].as_str());
        assert(ls@[i as int]@ == v[i as int]);
        if !text::starts_with(t.as_str(), "#") && (text::starts_with(t.as_str(), "model_provider")
            || text::starts_with(t.as_str(), "openai_base_url")) && text::contains(t.as_str(), "=") {
            return true;
        }
        i = i + 1;
    }
    false
}

/// The line about a left-over lock, when one exists.
pub open spec fn lock_lines(age: Option<u64>) -> Seq<Seq<char>> {
    match age {
        None => Seq::empty(),
        Some(a) => if a > 120 {
            seq![warn_line("发现超期残留锁（下次写库时自动清理）"@)]
        } else {
            seq![warn_line("锁文件存在（可能有另一实例在运行）"@)]
        },
    }
}

/// The email of the library's current account, or `-`.
pub open spec fn current_email(file: AccountsFile) -> Seq<char> {
    match file.current_account_id {
        Some(id) => if account::has_id(file.accounts@, id@) {
            file.accounts@[choose|i: int| account::first_with_id(file.accounts@, id@, i)].email@
        } else {
            "-"@
        },
        None => "-"@,
    }
}

/// The lines about the official `auth.json` and how many problems they
/// report.
pub open spec fn auth_lines(auth: Option<Seq<char>>, file: AccountsFile) -> (Seq<Seq<char>>, int) {
    match auth {
        None => (seq![warn_line("官方 auth.json 不存在（尚未登录/切换）"@)], 0),
        Some(t) => match json::json_parse_text(t) {
            None => (seq![err_line("官方 auth.json 解析失败："@ + json::json_error_text(t))], 1),
            Some(v) => {
                let tokens = json::field(v, "tokens"@);
                let has_at = match json::str_field(tokens, "access_token"@) {
                    Some(x) => text::trim_spec(x).len() != 0,
                    None => false,
                };
                if !has_at {
                    (seq![err_line("官方 auth.json 无有效 access_token"@)], 1)
                } else {
                    let email = match json::str_field(tokens, "id_token"@) {
                        Some(it) => match id_token_email(it) {
                            Some(e) => e,
                            None => "-"@,
                        },
                        None => "-"@,
                    };
                    let cur = current_email(file);
                    if email != "-"@ && normalized(email) == cur {
                        (seq![ok_line("官方 auth.json 与当前账号一致（"@ + email + "）"@)], 0)
                    } else {
                        (
                            seq![
                                warn_line(
                                    "官方 auth.json 归属 "@ + email + "，库中当前 "@ + cur
                                        + "（下次操作将自动收敛）"@,
                                ),
                            ],
                            0,
                        )
                    }
                }
            },
        },
    }
}

fn current_email_of(file: &AccountsFile) -> (r: String)
    ensures
        r@ == current_email(*file),
{
    match &file.current_account_id {
        Some(id) => match account::find_by_id(&file.accounts, id.as_str()) {
            Some(i) => {
                proof {
                    let c = choose|k: int| account::first_with_id(file.accounts@, id@, k);
                    if c < i {
                        assert(file.accounts@[c].id@ == id@);
                    }
                    if i < c {
                        assert(file.accounts@[i as int].id@ == id@);
                    }
                }
                file.accounts[i].email.clone()
            },
            None => text::to_owned("-"),
        },
        None => text::to_owned("-"),
    }
}

fn push_auth_lines(out: &mut Vec<String>, auth: &Option<String>, file: &AccountsFile) -> (bad: usize)
    ensures
        final(out)@.map_values(|s: String| s@) == old(out)@.map_values(|s: String| s@) + auth_lines(
            opt_view(*auth),
            *file,
        ).0,
        bad == auth_lines(opt_view(*auth), *file).1,
{
    let ghost start = out@.map_values(|s: String| s@);
    let t = match auth {
        None => {
            warn(out, "官方 auth.json 不存在（尚未登录/切换）");
            assert(out@.map_values(|s: String| s@) =~= start + auth_lines(opt_view(*auth), *file).0);
            return 0;
        },
        Some(t) => t,
    };
    let v = match json::parse_json(t.as_str()) {
        Ok(v) => v,
        Err(e) => {
            let m = text::cat("官方 auth.json 解析失败：", e.as_str());
            err(out, m.as_str());
            assert(out@.map_values(|s: String| s@) =~= start + auth_lines(opt_view(*auth), *file).0);
            return 1;
        },
    };
    let tokens = json::get(&v, "tokens");
    let at = match tokens {
        Some(tk) => match json::get(tk, "access_token") {
            Some(x) => json::as_str(x),
            None => None,
        },
        None => None,
    };
    let has_at = match at {
        Some(x) => !text::trim(x).as_str().is_empty(),
        None => false,
    };
    if !has_at {
        err(out, "官方 auth.json 无有效 access_token");
        assert(out@.map_values(|s: String| s@) =~= start + auth_lines(opt_view(*auth), *file).0);
        return 1;
    }
    let it = match tokens {
        Some(tk) => match json::get(tk, "id_token") {
            Some(x) => json::as_str(x),
            None => None,
        },
        None => None,
    };
    let email = match it {
        Some(x) => match account::email_from_id_token(x) {
            Some(e) => e,
            None => text::to_owned("-"),
        },
        None => text::to_owned("-"),
    };
    let cur = current_email_of(file);
    let same = !text::str_eq(email.as_str(), "-") && text::str_eq(
        account::normalize_email(email.as_str()).as_str(),
        cur.as_str(),
    );
    if same {
        let mut m = text::cat("官方 auth.json 与当前账号一致（", email.as_str());
        text::push_str(&mut m, "）");
        ok(out, m.as_str());
    } else {
        let mut m = text::cat("官方 auth.json 归属 ", email.as_str());
        text::push_str(&mut m, "，库中当前 ");
        text::push_str(&mut m, cur.as_str());
        text::push_str(&mut m, "（下次操作将自动收敛）");
        warn(out, m.as_str());
    }
    assert(out@.map_values(|s: String| s@) =~= start + auth_lines(opt_view(*auth), *file).0);
    0
}

/// The number of stale accounts.
pub open spec fn stale_count(accs: Seq<Account>) -> int
    decreases accs.len(),
{
    if accs.len() == 0 {
        0
    } else {
        stale_count(accs.drop_last()) + if accs.last().stale {
            1int
        } else {
            0
        }
    }
}

/// The lines about the library itself and whether its current id is
/// broken.
pub open spec fn library_lines(path: Seq<char>, file: AccountsFile) -> (Seq<Seq<char>>, int) {
    let n = file.accounts@.len();
    let head = seq![ok_line("账号库可解析："@ + text::dec(n as int) + " 个账号（"@ + path + "）"@)]
        + if n == 0 {
        seq![warn_line("账号库为空，按 a 添加"@)]
    } else {
        Seq::empty()
    };
    match file.current_account_id {
        None => (head, 0),
        Some(cur) => if account::has_id(file.accounts@, cur@) {
            (head.push(ok_line("当前账号指向有效"@)), 0)
        } else {
            (head.push(err_line("当前账号指向不存在的 id"@)), 1)
        },
    }
}

/// The facts can be shown: one offset per account, and every expiry and
/// the last check placed in its zone without overflow.
pub open spec fn facts_ok(f: DoctorFacts) -> bool {
    &&& f.accounts matches Ok(file) ==> f.expiry_offsets@.len() == file.accounts@.len()
        && file.accounts@.len() + 2 <= usize::MAX && forall|i: int|
        0 <= i < file.accounts@.len() ==> expiry_showable(
            #[trigger] file.accounts@[i],
            f.now,
            f.expiry_offsets@[i],
        )
    &&& f.last_check matches Some((ts, off)) ==> ts <= i64::MAX && i64::MIN <= ts + off <= i64::MAX
}

/// Everything the self-check reports, and the number of problems.
pub open spec fn doctor_spec(f: DoctorFacts, version: Seq<char>) -> (Seq<Seq<char>>, int) {
    match f.accounts {
        Err(e) => (seq![err_line("账号库损坏且 .bak 无法恢复："@ + e@)], 1),
        Ok(file) => {
            let accs = file.accounts@;
            let (l1, b1) = library_lines(f.accounts_path@, file);
            let l2 = if f.backup_exists {
                seq![ok_line("存在 .bak 备份"@)]
            } else {
                seq![warn_line("无 .bak 备份（首次写入后自动生成）"@)]
            };
            let l3 = perm_lines(f.file_mode, f.dir_mode);
            let l4 = Seq::new(
                accs.len(),
                |i: int| account_line(accs[i], f.now, f.expiry_offsets@[i]),
            );
            let (l5, b5) = auth_lines(opt_view(f.auth_json), file);
            let l6 = config_lines(opt_view(f.config_toml));
            let l7 = lock_lines(f.lock_age);
            let bad = b1 + stale_count(accs) + b5;
            let l8 = if bad == 0 {
                ok_line("自检通过"@)
            } else {
                warn_line("发现 "@ + text::dec(bad) + " 项需处理"@)
            };
            let l9 = ok_line("版本 hangar "@ + text::trim_spec(version));
            let l10 = match f.last_check {
                Some((ts, off)) => ok_line("上次检查更新 "@ + quota::local_time_text(ts + off)),
                None => warn_line("尚未检查更新（启动满 24h 或手动 update 后记录）"@),
            };
            (l1 + l2 + l3 + l4 + l5 + l6 + l7 + seq![l8, l9, l10], bad)
        },
    }
}

proof fn lemma_stale_count_bound(accs: Seq<Account>)
    ensures
        0 <= stale_count(accs) <= accs.len(),
    decreases accs.len(),
{
    if accs.len() > 0 {
        lemma_stale_count_bound(accs.drop_last());
    }
}

fn push_library_lines(out: &mut Vec<String>, path: &String, file: &AccountsFile) -> (bad: usize)
    ensures
        final(out)@.map_values(|s: String| s@) == old(out)@.map_values(|s: String| s@) + library_lines(
            path@,
            *file,
        ).0,
        bad == library_lines(path@, *file).1,
{
    let ghost start = out@.map_values(|s: String| s@);
    let mut bad: usize = 0;
    let mut head = text::to_owned("账号库可解析：");
    text::push_str(&mut head, text::fmt_u64(file.accounts.len() as u64).as_str());
    text::push_str(&mut head, " 个账号（");
    text::push_str(&mut head, path.as_str());
    text::push_str(&mut head, "）");
    ok(out, head.as_str());
    if file.accounts.len() == 0 {
        warn(out, "账号库为空，按 a 添加");
    }
    match &file.current_account_id {
        Some(cur) => match account::find_by_id(&file.accounts, cur.as_str()) {
            Some(_) => ok(out, "当前账号指向有效"),
            None => {
                err(out, "当前账号指向不存在的 id");
                bad = bad + 1;
            },
        },
        None => {},
    }
    assert(out@.map_values(|s: String| s@) =~= start + library_lines(path@, *file).0);
    bad
}

fn push_account_lines(out: &mut Vec<String>, facts: &DoctorFacts, file: &AccountsFile) -> (stale: usize)
    requires
        facts_ok(*facts),
        facts.accounts == Ok::<AccountsFile, String>(*file),
    ensures
        final(out)@.map_values(|s: String| s@) == old(out)@.map_values(|s: String| s@) + Seq::new(
            file.accounts@.len(),
            |k: int| account_line(file.accounts@[k], facts.now, facts.expiry_offsets@[k]),
        ),
        stale as int == stale_count(file.accounts@),
{
    let ghost accs = file.accounts@;
    let ghost before_accounts = out@.map_values(|s: String| s@);
    let mut stale: usize = 0;
    let mut i: usize = 0;
    while i < file.accounts.len()
        invariant
            i <= file.accounts.len(),
            accs == file.accounts@,
            facts_ok(*facts),
            facts.accounts == Ok::<AccountsFile, String>(*file),
            out@.map_values(|s: String| s@) == before_accounts + Seq::new(
                i as nat,
                |k: int| account_line(accs[k], facts.now, facts.expiry_offsets@[k]),
            ),
            stale as int == stale_count(accs.subrange(0, i as int)),
            stale <= i,
        decreases file.accounts.len() - i,
    {
        let a = &file.accounts[i];
        assert(expiry_showable(accs[i as int], facts.now, facts.expiry_offsets@[i as int]));
        let line = account_line_of(a, facts.now, facts.expiry_offsets[i]);
        let ghost prev = out@.map_values(|s: String| s@);
        let ghost lv = line@;
        out.push(line);
        assert(out@.map_values(|s: String| s@) =~= prev.push(lv));
        assert(accs.subrange(0, i + 1).drop_last() =~= accs.subrange(0, i as int));
        if a.stale {
            stale = stale + 1;
        }
        i = i + 1;
        assert(out@.map_values(|s: String| s@) =~= before_accounts + Seq::new(
            i as nat,
            |k: int| account_line(accs[k], facts.now, facts.expiry_offsets@[k]),
        ));
    }
    assert(accs.subrange(0, accs.len() as int) =~= accs);
    stale
}

fn push_tail_lines(out: &mut Vec<String>, facts: &DoctorFacts)
    requires
        facts_ok(*facts),
    ensures
        final(out)@.map_values(|s: String| s@) == old(out)@.map_values(|s: String| s@) + config_lines(
            opt_view(facts.config_toml),
        ) + lock_lines(facts.lock_age),
{
    let ghost start = out@.map_values(|s: String| s@);
    match &facts.config_toml {
        Some(c) => if has_custom_route(c.as_str()) {
            warn(out, "config.toml 含自定义 provider 路由，OAuth 切换时将被清理");
        } else {
            ok(out, "config.toml 无冲突路由");
        },
        None => {},
    }
    let ghost mid = out@.map_values(|s: String| s@);
    assert(mid =~= start + config_lines(opt_view(facts.config_toml)));
    match facts.lock_age {
        Some(age) => if age > 120 {
            warn(out, "发现超期残留锁（下次写库时自动清理）");
        } else {
            warn(out, "锁文件存在（可能有另一实例在运行）");
        },
        None => {},
    }
    assert(out@.map_values(|s: String| s@) =~= mid + lock_lines(facts.lock_age));
}

/// The closing lines: the verdict, the version and the update check.
pub open spec fn closing_lines(bad: int, version: Seq<char>, last_check: Option<(u64, i64)>) -> Seq<
    Seq<char>,
> {
    seq![
        if bad == 0 {
            ok_line("自检通过"@)
        } else {
            warn_line("发现 "@ + text::dec(bad) + " 项需处理"@)
        },
        ok_line("版本 hangar "@ + text::trim_spec(version)),
        match last_check {
            Some((ts, off)) => ok_line("上次检查更新 "@ + quota::local_time_text(ts + off)),
            None => warn_line("尚未检查更新（启动满 24h 或手动 update 后记录）"@),
        },
    ]
}

fn push_closing_lines(out: &mut Vec<String>, total: usize, version: &str, last_check: Option<(u64, i64)>)
    requires
        last_check matches Some((ts, off)) ==> ts <= i64::MAX && i64::MIN <= ts + off <= i64::MAX,
    ensures
        final(out)@.map_values(|s: String| s@) == old(out)@.map_values(|s: String| s@) + closing_lines(
            total as int,
            version@,
            last_check,
        ),
{
    let ghost start = out@.map_values(|s: String| s@);
    if total == 0 {
        ok(out, "自检通过");
    } else {
        let mut m = text::to_owned("发现 ");
        text::push_str(&mut m, text::fmt_u64(total as u64).as_str());
        text::push_str(&mut m, " 项需处理");
        warn(out, m.as_str());
    }
    let mut v = text::to_owned("版本 hangar ");
    text::push_str(&mut v, text::trim(version).as_str());
    ok(out, v.as_str());
    match last_check {
        Some((ts, off)) => {
            let shown = quota::fmt_ts_local(ts as i64, off);
            let m = text::cat("上次检查更新 ", shown.as_str());
            ok(out, m.as_str());
        },
        None => warn(out, "尚未检查更新（启动满 24h 或手动 update 后记录）"),
    }
    assert(out@.map_values(|s: String| s@) =~= start + closing_lines(total as int, version@, last_check));
}

/// Runs the self-check over the gathered facts: the lines to show and the
/// number of problems found.
pub fn doctor_lines(facts: &DoctorFacts, binary_version: &str) -> (r: (Vec<String>, usize))
    requires
        facts_ok(*facts),
    ensures
        r.0@.map_values(|s: String| s@) == doctor_spec(*facts, binary_version@).0,
        r.1 as int == doctor_spec(*facts, binary_version@).1,
{
    let mut out: Vec<String> = Vec::new();
    let file = match &facts.accounts {
        Ok(f) => f,
        Err(e) => {
            err(&mut out, text::cat("账号库损坏且 .bak 无法恢复：", e.as_str()).as_str());
            assert(out@.map_values(|s: String| s@) =~= doctor_spec(*facts, binary_version@).0);
            return (out, 1);
        },
    };
    let ghost accs = file.accounts@;
    let bad = push_library_lines(&mut out, &facts.accounts_path, file);
    let ghost l1 = out@.map_values(|s: String| s@);
    if facts.backup_exists {
        ok(&mut out, "存在 .bak 备份");
    } else {
        warn(&mut out, "无 .bak 备份（首次写入后自动生成）");
    }
    let ghost l12 = out@.map_values(|s: String| s@);
    push_perm_lines(&mut out, facts.file_mode, facts.dir_mode);
    let ghost l123 = out@.map_values(|s: String| s@);
    let stale = push_account_lines(&mut out, facts, file);
    let ghost l1234 = out@.map_values(|s: String| s@);
    let auth_bad = push_auth_lines(&mut out, &facts.auth_json, file);
    let ghost l12345 = out@.map_values(|s: String| s@);
    push_tail_lines(&mut out, facts);
    let ghost l1_7 = out@.map_values(|s: String| s@);
    proof {
        lemma_stale_count_bound(accs);
    }
    let total: usize = bad + stale + auth_bad;
    push_closing_lines(&mut out, total, binary_version, facts.last_check);
    proof {
        let spec = doctor_spec(*facts, binary_version@);
        assert(l12 =~= l1 + if facts.backup_exists {
            seq![ok_line("存在 .bak 备份"@)]
        } else {
            seq![warn_line("无 .bak 备份（首次写入后自动生成）"@)]
        });
        assert(closing_lines(total as int, binary_version@, facts.last_check) =~= seq![
            if total == 0 {
                ok_line("自检通过"@)
            } else {
                warn_line("发现 "@ + text::dec(total as int) + " 项需处理"@)
            },
            ok_line("版本 hangar "@ + text::trim_spec(binary_version@)),
            match facts.last_check {
                Some((ts, off)) => ok_line("上次检查更新 "@ + quota::local_time_text(ts + off)),
                None => warn_line("尚未检查更新（启动满 24h 或手动 update 后记录）"@),
            },
        ]);
        assert(out@.map_values(|s: String| s@) =~= spec.0);
    }
    (out, total)
}

/// The lines of a `config.toml` kept when custom routes are removed.
pub open spec fn kept_lines(lines: Seq<Seq<char>>) -> Seq<Seq<char>>
    decreases lines.len(),
{
    if lines.len() == 0 {
        Seq::empty()
    } else {
        let rest = kept_lines(lines.drop_last());
        if route_line(text::trim_start_spec(lines.last())) {
            rest
        } else {
            rest.push(lines.last())
        }
    }
}

/// Each line followed by a newline.
pub open spec fn with_newlines(lines: Seq<Seq<char>>) -> Seq<char>
    decreases lines.len(),
{
    if lines.len() == 0 {
        Seq::empty()
    } else {
        with_newlines(lines.drop_last()) + lines.last() + "\n"@
    }
}

/// The `config.toml` after an OAuth switch: every custom provider route
/// removed (comments and other settings kept); `None` when there was none
/// to remove.
pub open spec fn reset_routes_spec(cfg: Seq<char>) -> Option<Seq<char>> {
    let ls = updater::lines_of(cfg);
    let kept = kept_lines(ls);
    if kept.len() == ls.len() {
        None
    } else {
        Some(with_newlines(kept))
    }
}

proof fn lemma_kept_len(lines: Seq<Seq<char>>)
    ensures
        kept_lines(lines).len() <= lines.len(),
    decreases lines.len(),
{
    if lines.len() > 0 {
        lemma_kept_len(lines.drop_last());
    }
}

/// Removes the custom provider routes of a `config.toml` text.
pub fn reset_provider_routes(cfg: &str) -> (r: Option<String>)
    ensures
        opt_view(r) == reset_routes_spec(cfg@),
{
    let ls = updater::lines(cfg);
    let ghost v = ls@.map_values(|x: String| x@);
    let mut out = String::new();
    let mut kept: usize = 0;
    let mut i: usize = 0;
    while i < ls.len()
        invariant
            i <= ls.len(),
            v == ls@.map_values(|x: String| x@),
            v == updater::lines_of(cfg@),
            out@ == with_newlines(kept_lines(v.subrange(0, i as int))),
            kept as int == kept_lines(v.subrange(0, i as int)).len(),
            kept <= i,
        decreases ls.len() - i,
    {
        let ghost pre = v.subrange(0, i as int);
        assert(v.subrange(0, i + 1).drop_last() =~= pre);
        assert(v.subrange(0, i + 1).last() == ls@[i as int]@);
        proof {
            lemma_kept_len(pre);
        }
        let t = text::trim_start(ls[i].as_str());
        let route = !text::starts_with(t.as_str(), "#") && (text::starts_with(
            t.as_str(),
            "model_provider",
        ) || text::starts_with(t.as_str(), "openai_base_url")) && text::contains(t.as_str(), "=");
        if !route {
            let ghost k0 = kept_lines(pre);
            assert(k0.push(v[i as int]).drop_last() =~= k0);
            text::push_str(&mut out, ls[i].as_str());
            text::push_str(&mut out, "\n");
            kept = kept + 1;
        }
        i = i + 1;
    }
    assert(v.subrange(0, v.len() as int) =~= v);
    if kept == ls.len() {
        None
    } else {
        Some(out)
    }
}

} // verus!
