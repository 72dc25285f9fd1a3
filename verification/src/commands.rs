//! The command line's error kinds and exit codes, and the decisions its
//! commands take before and after they touch anything.

use crate::account::{opt_view, Account, AccountError, AccountErrorKind, AccountsFile, HarvestReport};
use crate::selector;
use crate::text;
use vstd::prelude::*;

verus! {

/// What kind of failure ended a command.
#[derive(Debug, Clone, Copy, PartialEq, Eq, Structural)]
pub enum ErrorKind {
    Internal,
    Usage,
    State,
    Auth,
    External,
}

impl ErrorKind {
    pub open spec fn exit_code_spec(self) -> i32 {
        match self {
            ErrorKind::Internal => 1,
            ErrorKind::Usage => 2,
            ErrorKind::State => 3,
            ErrorKind::Auth => 4,
            ErrorKind::External => 5,
        }
    }

    /// The process exit code of a failure of this kind.
    pub fn exit_code(self) -> (r: i32)
        ensures
            r == self.exit_code_spec(),
    {
        match self {
            ErrorKind::Internal => 1,
            ErrorKind::Usage => 2,
            ErrorKind::State => 3,
            ErrorKind::Auth => 4,
            ErrorKind::External => 5,
        }
    }
}

/// A failed command: its kind and message.
#[derive(Debug)]
pub struct CommandError {
    pub kind: ErrorKind,
    pub message: String,
}

/// The command error kind of an account error kind: one for one.
pub open spec fn kind_of(k: AccountErrorKind) -> ErrorKind {
    match k {
        AccountErrorKind::State => ErrorKind::State,
        AccountErrorKind::Auth => ErrorKind::Auth,
        AccountErrorKind::External => ErrorKind::External,
        AccountErrorKind::Internal => ErrorKind::Internal,
    }
}

impl CommandError {
    pub fn new(kind: ErrorKind, message: String) -> (r: CommandError)
        ensures
            r.kind == kind && r.message == message,
    {
        CommandError { kind, message }
    }

    pub fn internal(message: String) -> (r: CommandError)
        ensures
            r.kind == ErrorKind::Internal && r.message == message,
    {
        Self::new(ErrorKind::Internal, message)
    }

    pub fn state(message: String) -> (r: CommandError)
        ensures
            r.kind == ErrorKind::State && r.message == message,
    {
        Self::new(ErrorKind::State, message)
    }

    pub fn auth(message: String) -> (r: CommandError)
        ensures
            r.kind == ErrorKind::Auth && r.message == message,
    {
        Self::new(ErrorKind::Auth, message)
    }

    pub fn external(message: String) -> (r: CommandError)
        ensures
            r.kind == ErrorKind::External && r.message == message,
    {
        Self::new(ErrorKind::External, message)
    }

    /// The command error of an account error: its kind mapped one for one,
    /// its message kept, no message parsed.
    pub fn from_account(error: AccountError) -> (r: CommandError)
        ensures
            r.kind == kind_of(error.kind),
            r.message == error.message,
    {
        let kind = match error.kind() {
            AccountErrorKind::State => ErrorKind::State,
            AccountErrorKind::Auth => ErrorKind::Auth,
            AccountErrorKind::External => ErrorKind::External,
            AccountErrorKind::Internal => ErrorKind::Internal,
        };
        Self::new(kind, error.to_message())
    }
}

/// `r` failed with kind `k` and message `m`.
pub open spec fn command_error<T>(r: Result<T, CommandError>, k: ErrorKind, m: Seq<char>) -> bool {
    r matches Err(e) && e.kind == k && e.message@ == m
}

/// A non-interactive removal must be confirmed with `--yes`.
pub fn confirm_remove(yes: bool) -> (r: Result<(), CommandError>)
    ensures
        yes ==> r is Ok,
        !yes ==> command_error(r, ErrorKind::Usage, "非交互删除必须显式传入 --yes"@),
{
    if !yes {
        return Err(CommandError::new(ErrorKind::Usage, text::to_owned("非交互删除必须显式传入 --yes")));
    }
    Ok(())
}

/// Only an account marked stale is logged in again.
pub fn check_reauth_target(target: &Account) -> (r: Result<(), CommandError>)
    ensures
        target.stale ==> r is Ok,
        !target.stale ==> command_error(
            r,
            ErrorKind::State,
            "账号 "@ + target.email@ + " 未标记为失效，无需复活"@,
        ),
{
    if !target.stale {
        let mut m = text::cat("账号 ", target.email.as_str());
        text::push_str(&mut m, " 未标记为失效，无需复活");
        return Err(CommandError::state(m));
    }
    Ok(())
}

/// A switch writes nothing when the account is already the current one.
pub fn switch_needed(file: &AccountsFile, account: &Account) -> (r: bool)
    ensures
        r == (opt_view(file.current_account_id) != Some(account.id@)),
{
    match &file.current_account_id {
        Some(c) => !text::str_eq(c.as_str(), account.id.as_str()),
        None => true,
    }
}

/// The accounts that are not stale, in order.
pub open spec fn usable_accounts(accs: Seq<Account>) -> Seq<Account>
    decreases accs.len(),
{
    if accs.len() == 0 {
        Seq::empty()
    } else if accs.last().stale {
        usable_accounts(accs.drop_last())
    } else {
        usable_accounts(accs.drop_last()).push(accs.last())
    }
}

/// The accounts whose quota a `quota` command queries: a stale selected
/// account is refused; `all` takes every usable account; else the selected
/// one, else the current one.
pub open spec fn quota_targets_spec(
    file: AccountsFile,
    selected: Option<Account>,
    all: bool,
) -> Result<Seq<Account>, (ErrorKind, Seq<char>)> {
    if selected matches Some(a) && a.stale {
        Err((ErrorKind::Auth, "账号 "@ + selected->0.email@ + " 已失效，需要重新登录"@))
    } else {
        let chosen: Result<Seq<Account>, (ErrorKind, Seq<char>)> = if all {
            Ok(usable_accounts(file.accounts@))
        } else if selected is Some {
            Ok(seq![selected->0])
        } else {
            match selector::current_spec(file) {
                Ok(i) => Ok(seq![file.accounts@[i]]),
                Err(m) => Err((ErrorKind::State, m)),
            }
        };
        match chosen {
            Ok(v) => if v.len() == 0 {
                Err((ErrorKind::State, "没有可查询配额的正常账号"@))
            } else {
                Ok(v)
            },
            Err(e) => Err(e),
        }
    }
}

pub fn quota_targets_for(file: &AccountsFile, selected: Option<Account>, all: bool) -> (r: Result<
    Vec<Account>,
    CommandError,
>)
    ensures
        match quota_targets_spec(*file, selected, all) {
            Ok(v) => r matches Ok(out) && out@ == v,
            Err((k, m)) => r matches Err(e) && e.kind == k && e.message@ == m,
        },
{
    match &selected {
        Some(a) => if a.stale {
            let mut m = text::cat("账号 ", a.email.as_str());
            text::push_str(&mut m, " 已失效，需要重新登录");
            return Err(CommandError::auth(m));
        },
        None => {},
    }
    let out: Vec<Account> = if all {
        let mut v: Vec<Account> = Vec::new();
        let mut i: usize = 0;
        while i < file.accounts.len()
            invariant
                i <= file.accounts.len(),
                v@ == usable_accounts(file.accounts@.subrange(0, i as int)),
            decreases file.accounts.len() - i,
        {
            let ghost pre = file.accounts@.subrange(0, i as int);
            assert(file.accounts@.subrange(0, i + 1).drop_last() =~= pre);
            if !file.accounts[i].stale {
                v.push(file.accounts[i].copy());
            }
            i = i + 1;
        }
        assert(file.accounts@.subrange(0, file.accounts@.len() as int) =~= file.accounts@);
        v
    } else {
        match selected {
            Some(a) => {
                let mut v: Vec<Account> = Vec::new();
                v.push(a);
                v
            },
            None => match selector::current(file) {
                Ok(a) => {
                    let mut v: Vec<Account> = Vec::new();
                    v.push(a.copy());
                    v
                },
                Err(m) => return Err(CommandError::state(m)),
            },
        }
    };
    if out.len() == 0 {
        return Err(CommandError::state(text::to_owned("没有可查询配额的正常账号")));
    }
    Ok(out)
}

/// The message after a harvest: the number of accounts, and whether
/// anything changed.
pub open spec fn harvest_message_spec(account_count: usize, changed: bool) -> Seq<char> {
    "已收敛凭据，共 "@ + text::dec(account_count as int) + " 个账号"@ + if changed {
        "（有更新）"@
    } else {
        Seq::empty()
    }
}

pub fn harvest_message(report: &HarvestReport) -> (r: String)
    ensures
        r@ == harvest_message_spec(report.account_count, report.changed),
{
    let mut s = text::cat("已收敛凭据，共 ", text::fmt_u64(report.account_count as u64).as_str());
    text::push_str(&mut s, " 个账号");
    if report.changed {
        text::push_str(&mut s, "（有更新）");
    }
    s
}

/// A self-check that found problems ends the command with a state error.
pub fn doctor_verdict(issues: usize) -> (r: Result<(), CommandError>)
    ensures
        issues == 0 ==> r is Ok,
        issues > 0 ==> command_error(
            r,
            ErrorKind::State,
            "自检发现 "@ + text::dec(issues as int) + " 个问题"@,
        ),
{
    if issues > 0 {
        let mut m = text::cat("自检发现 ", text::fmt_u64(issues as u64).as_str());
        text::push_str(&mut m, " 个问题");
        return Err(CommandError::state(m));
    }
    Ok(())
}

/// A quota command with a failed query ends with an external error.
pub fn quota_verdict(any_failed: bool) -> (r: Result<(), CommandError>)
    ensures
        !any_failed ==> r is Ok,
        any_failed ==> command_error(r, ErrorKind::External, "一个或多个账号配额查询失败"@),
{
    if any_failed {
        return Err(CommandError::external(text::to_owned("一个或多个账号配额查询失败")));
    }
    Ok(())
}


/// The subcommand given on the command line, as far as starting up cares.
#[derive(Debug, Clone, Copy, PartialEq, Eq, Structural)]
pub enum Sub {
    Tui,
    Classic,
    Update,
    /// Any other one-shot command.
    Other,
}

/// How the program runs.
#[derive(Debug, Clone, Copy, PartialEq, Eq, Structural)]
pub enum Launch {
    Tui,
    Classic,
    /// The explicit update command.
    Update,
    /// The one-shot command that was given.
    Command,
}

/// How the program runs, given `--json`, the legacy `--check-update` and
/// `--classic` flags, the subcommand and whether stdout is a terminal; a
/// usage error for combinations that make no sense.
pub open spec fn launch_spec(json: bool, check_update: bool, classic: bool, sub: Option<Sub>, tty: bool) -> Result<
    Launch,
    Seq<char>,
> {
    if check_update && sub is Some {
        Err("--check-update 不能与子命令同时使用"@)
    } else if classic && sub is Some {
        Err("--classic 不能与子命令同时使用"@)
    } else {
        let s = if check_update {
            Some(Sub::Update)
        } else if classic {
            Some(Sub::Classic)
        } else {
            sub
        };
        match s {
            Some(Sub::Tui) => if json {
                Err("tui 不支持 --json"@)
            } else if !tty {
                Err("tui 需要交互式终端；非 TTY 请使用一次性命令或 classic"@)
            } else {
                Ok(Launch::Tui)
            },
            Some(Sub::Classic) => if json {
                Err("classic 不支持 --json"@)
            } else {
                Ok(Launch::Classic)
            },
            Some(Sub::Update) => Ok(Launch::Update),
            Some(Sub::Other) => Ok(Launch::Command),
            None => if json {
                Err("--json 必须与一次性子命令一起使用"@)
            } else if tty {
                Ok(Launch::Tui)
            } else {
                Ok(Launch::Classic)
            },
        }
    }
}

/// How the program runs; every refusal is a usage error.
pub fn launch_plan(json: bool, check_update: bool, classic: bool, sub: Option<Sub>, tty: bool) -> (r: Result<
    Launch,
    CommandError,
>)
    ensures
        match launch_spec(json, check_update, classic, sub, tty) {
            Ok(l) => r matches Ok(x) && x == l,
            Err(m) => command_error(r, ErrorKind::Usage, m),
        },
{
    let usage = |m: &str| -> (e: CommandError)
        ensures
            e.kind == ErrorKind::Usage && e.message@ == m@,
        { CommandError::new(ErrorKind::Usage, text::to_owned(m)) };
    if check_update && sub.is_some() {
        return Err(usage("--check-update 不能与子命令同时使用"));
    }
    if classic && sub.is_some() {
        return Err(usage("--classic 不能与子命令同时使用"));
    }
    let s = if check_update {
        Some(Sub::Update)
    } else if classic {
        Some(Sub::Classic)
    } else {
        sub
    };
    match s {
        Some(Sub::Tui) => if json {
            Err(usage("tui 不支持 --json"))
        } else if !tty {
            Err(usage("tui 需要交互式终端；非 TTY 请使用一次性命令或 classic"))
        } else {
            Ok(Launch::Tui)
        },
        Some(Sub::Classic) => if json {
            Err(usage("classic 不支持 --json"))
        } else {
            Ok(Launch::Classic)
        },
        Some(Sub::Update) => Ok(Launch::Update),
        Some(Sub::Other) => Ok(Launch::Command),
        None => if json {
            Err(usage("--json 必须与一次性子命令一起使用"))
        } else if tty {
            Ok(Launch::Tui)
        } else {
            Ok(Launch::Classic)
        },
    }
}

/// A line of `list`: id, email, whether it is in use, and a stale mark.
pub open spec fn list_line_spec(a: Account, current: bool) -> Seq<char> {
    a.id@ + "\t"@ + a.email@ + "\t"@ + (if current {
        "current"@
    } else {
        "inactive"@
    }) + (if a.stale {
        "\tstale"@
    } else {
        Seq::empty()
    })
}

pub fn list_line(a: &Account, current: bool) -> (r: String)
    ensures
        r@ == list_line_spec(*a, current),
{
    let mut s = text::cat(a.id.as_str(), "\t");
    text::push_str(&mut s, a.email.as_str());
    text::push_str(&mut s, "\t");
    text::push_str(&mut s, if current { "current" } else { "inactive" });
    if a.stale {
        text::push_str(&mut s, "\tstale");
    }
    s
}

/// The line of `current`: id and email.
pub fn current_line(a: &Account) -> (r: String)
    ensures
        r@ == a.id@ + "\t"@ + a.email@,
{
    let mut s = text::cat(a.id.as_str(), "\t");
    text::push_str(&mut s, a.email.as_str());
    s
}

/// The heading of an account's quota: its email and plan (`-` unknown).
pub open spec fn quota_heading_spec(email: Seq<char>, plan: Option<Seq<char>>) -> Seq<char> {
    email + " ["@ + match plan {
        Some(p) => p,
        None => "-"@,
    } + "]"@
}

pub fn quota_heading(email: &str, plan: &Option<String>) -> (r: String)
    ensures
        r@ == quota_heading_spec(email@, opt_view(*plan)),
{
    let mut s = text::cat(email, " [");
    match plan {
        Some(p) => text::push_str(&mut s, p.as_str()),
        None => text::push_str(&mut s, "-"),
    }
    text::push_str(&mut s, "]");
    s
}

/// A quota window's line: its label, the remaining share and the reset
/// time as the caller shows it, each `未知` when unknown.
pub open spec fn window_line_spec(label: Seq<char>, remaining: Option<i32>, reset_shown: Option<Seq<char>>) -> Seq<char> {
    "  "@ + label + " 剩余 "@ + match remaining {
        Some(v) => text::dec(v as int) + "%"@,
        None => "未知"@,
    } + " 重置于 "@ + match reset_shown {
        Some(r) => r,
        None => "未知"@,
    }
}

pub fn window_line(label: &str, remaining: Option<i32>, reset_shown: Option<String>) -> (r: String)
    ensures
        r@ == window_line_spec(label@, remaining, opt_view(reset_shown)),
{
    let mut s = text::cat("  ", label);
    text::push_str(&mut s, " 剩余 ");
    match remaining {
        Some(v) => {
            text::push_str(&mut s, text::fmt_i64(v as i64).as_str());
            text::push_str(&mut s, "%");
        },
        None => text::push_str(&mut s, "未知"),
    }
    text::push_str(&mut s, " 重置于 ");
    match reset_shown {
        Some(r) => text::push_str(&mut s, r.as_str()),
        None => text::push_str(&mut s, "未知"),
    }
    s
}

} // verus!
