//! Whether Codex is running, read from a process listing. Running `ps`,
//! `pgrep` or `tasklist` is the caller's.

use crate::text::{self, ascii_lower_seq, has_substring, has_suffix};
use crate::updater::{self, lines_of, next_word};
use vstd::prelude::*;

verus! {

/// The command name of a lower-cased `ps` line: its first word.
pub open spec fn comm_of(l: Seq<char>) -> Seq<char> {
    match next_word(l) {
        Some((w, _)) => w,
        None => Seq::empty(),
    }
}

/// A `ps -eo comm,args` line that shows Codex: not this program (`hangar`,
/// or its own pid), and named `codex` or `codex-cli`, or running a
/// `codex` binary.
pub open spec fn codex_line(line: Seq<char>, self_pid: Seq<char>) -> bool {
    let l = ascii_lower_seq(line);
    let comm = comm_of(l);
    &&& !(has_substring(l, "hangar"@) || has_substring(l, self_pid))
    &&& (comm == "codex"@ || comm == "codex-cli"@ || has_suffix(comm, "/codex"@) || has_substring(
        l,
        "/codex "@,
    ) || has_substring(l, " codex "@))
}

/// Some line of a `ps` listing shows Codex.
pub open spec fn codex_in_listing(out: Seq<char>, self_pid: Seq<char>) -> bool {
    exists|i: int| 0 <= i < lines_of(out).len() && codex_line(#[trigger] lines_of(out)[i], self_pid)
}

fn is_codex_line(line: &str, self_pid: &str) -> (r: bool)
    ensures
        r == codex_line(line@, self_pid@),
{
    let l = text::to_ascii_lowercase(line);
    if text::contains(l.as_str(), "hangar") || text::contains(l.as_str(), self_pid) {
        return false;
    }
    let comm = match updater::next_word_of(l.as_str()) {
        Some((w, _)) => w,
        None => String::new(),
    };
    text::str_eq(comm.as_str(), "codex") || text::str_eq(comm.as_str(), "codex-cli")
        || text::ends_with(comm.as_str(), "/codex") || text::contains(l.as_str(), "/codex ")
        || text::contains(l.as_str(), " codex ")
}

/// Whether a `ps -eo comm,args` listing shows Codex, other than this
/// program (whose pid is `self_pid`).
pub fn codex_running_in_ps(out: &str, self_pid: &str) -> (r: bool)
    ensures
        r == codex_in_listing(out@, self_pid@),
{
    let ls = updater::lines(out);
    let ghost v = ls@.map_values(|x: String| x@);
    let mut i: usize = 0;
    while i < ls.len()
        invariant
            i <= ls.len(),
            v == ls@.map_values(|x: String| x@),
            v == lines_of(out@),
            forall|k: int| 0 <= k < i ==> !codex_line(#[trigger] v[k], self_pid@),
        decreases ls.len() - i,
    {
        assert(ls@[i as int]@ == v[i as int]);
        if is_codex_line(ls[i].as_str(), self_pid) {
            return true;
        }
        i = i + 1;
    }
    false
}

/// Whether a `tasklist` listing names `codex.exe` (ASCII case ignored).
pub fn codex_in_tasklist(out: &str) -> (r: bool)
    ensures
        r == has_substring(ascii_lower_seq(out@), "codex.exe"@),
{
    text::contains(text::to_ascii_lowercase(out).as_str(), "codex.exe")
}

} // verus!
