//! Self-update decisions: which release asset fits a platform, version
//! comparison, the checksum list, the check cache's TTL, and what a
//! release document offers. Downloading and replacing the binary is the
//! caller's.

use crate::json::{self, JsonDoc};
use crate::oauth;
use crate::text;
use vstd::prelude::*;

verus! {

/// The repository whose releases are checked.
pub const REPO: &'static str = "mocikadev/hangar";

/// The GitHub API root.
pub const GITHUB_API: &'static str = "https://api.github.com";

/// How long a check is remembered, in seconds.
pub const CACHE_TTL_SECS: u64 = 86400;

/// A newer release and the URLs of this platform's binary and checksums.
#[derive(Debug, Clone)]
pub struct ReleaseInfo {
    pub tag: String,
    pub version: String,
    pub binary_url: String,
    pub checksum_url: String,
    /// The release asset of this platform (such as `hangar-linux-amd64`).
    pub asset: String,
}

/// The release target of an operating system and architecture (as std
/// names them); `None` where no binary is published.
pub open spec fn target_of(os: Seq<char>, arch: Seq<char>) -> Option<Seq<char>> {
    if os == "linux"@ && arch == "x86_64"@ {
        Some("linux-amd64"@)
    } else if os == "linux"@ && arch == "aarch64"@ {
        Some("linux-arm64"@)
    } else if os == "macos"@ && arch == "x86_64"@ {
        Some("macos-amd64"@)
    } else if os == "macos"@ && arch == "aarch64"@ {
        Some("macos-arm64"@)
    } else if os == "windows"@ && arch == "x86_64"@ {
        Some("windows-x86_64"@)
    } else {
        None
    }
}

/// The release target of the platform `os`/`arch`.
pub fn current_target(os: &str, arch: &str) -> (r: Option<&'static str>)
    ensures
        match r {
            Some(t) => target_of(os@, arch@) == Some(t@),
            None => target_of(os@, arch@) is None,
        },
{
    if text::str_eq(os, "linux") && text::str_eq(arch, "x86_64") {
        Some("linux-amd64")
    } else if text::str_eq(os, "linux") && text::str_eq(arch, "aarch64") {
        Some("linux-arm64")
    } else if text::str_eq(os, "macos") && text::str_eq(arch, "x86_64") {
        Some("macos-amd64")
    } else if text::str_eq(os, "macos") && text::str_eq(arch, "aarch64") {
        Some("macos-arm64")
    } else if text::str_eq(os, "windows") && text::str_eq(arch, "x86_64") {
        Some("windows-x86_64")
    } else {
        None
    }
}

/// The command-line binary's asset name: `hangar-<target>`, with `.exe`
/// on Windows.
pub open spec fn asset_name(target: Seq<char>, windows: bool) -> Seq<char> {
    if windows {
        "hangar-"@ + target + ".exe"@
    } else {
        "hangar-"@ + target
    }
}

pub fn asset_name_for_target(target: &str, windows: bool) -> (r: String)
    ensures
        r@ == asset_name(target@, windows),
{
    let mut s = text::cat("hangar-", target);
    if windows {
        text::push_str(&mut s, ".exe");
    }
    s
}

/// `s` without leading `c` characters (`trim_start_matches(c)`).
pub open spec fn strip_leading(s: Seq<char>, c: char) -> Seq<char>
    decreases s.len(),
{
    if s.len() > 0 && s[0] == c {
        strip_leading(s.drop_first(), c)
    } else {
        s
    }
}

pub fn strip_leading_of(s: &str, c: char) -> (r: String)
    ensures
        r@ == strip_leading(s@, c),
{
    let cs = text::chars_of(s);
    let mut i: usize = 0;
    assert(cs@.subrange(0, cs@.len() as int) =~= cs@);
    while i < cs.len() && cs[i] == c
        invariant
            i <= cs.len(),
            cs@ == s@,
            strip_leading(s@, c) == strip_leading(cs@.subrange(i as int, cs@.len() as int), c),
        decreases cs.len() - i,
    {
        assert(cs@.subrange(i as int, cs@.len() as int).drop_first() =~= cs@.subrange(
            i + 1,
            cs@.len() as int,
        ));
        i = i + 1;
    }
    text::string_of_range(&cs, i, cs.len())
}

/// `major.minor.patch` of a version text (leading `v`s and whitespace
/// allowed; further components ignored).
pub open spec fn version_of(v: Seq<char>) -> Option<(u32, u32, u32)> {
    let p = text::split_parts(strip_leading(text::trim_spec(v), 'v'), '.');
    if p.len() < 3 {
        None
    } else {
        match (
            text::parse_u32_spec(text::trim_spec(p[0])),
            text::parse_u32_spec(text::trim_spec(p[1])),
            text::parse_u32_spec(text::trim_spec(p[2])),
        ) {
            (Some(a), Some(b), Some(c)) => Some((a, b, c)),
            _ => None,
        }
    }
}

fn parse_part(p: &String) -> (r: Option<u32>)
    ensures
        r == text::parse_u32_spec(text::trim_spec(p@)),
{
    let t = text::trim(p.as_str());
    text::parse_u32(t.as_str())
}

/// Parses `major.minor.patch`.
pub fn parse_version(v: &str) -> (r: Option<(u32, u32, u32)>)
    ensures
        r == version_of(v@),
{
    let t = text::trim(v);
    let s = strip_leading_of(t.as_str(), 'v');
    let p = text::split_on(s.as_str(), '.');
    proof {
        assert(p@.len() == text::split_parts(s@, '.').len());
    }
    if p.len() < 3 {
        return None;
    }
    proof {
        assert(p@[0]@ == text::split_parts(s@, '.')[0]);
        assert(p@[1]@ == text::split_parts(s@, '.')[1]);
        assert(p@[2]@ == text::split_parts(s@, '.')[2]);
    }
    let a = parse_part(&p[0]);
    let b = parse_part(&p[1]);
    let c = parse_part(&p[2]);
    match (a, b, c) {
        (Some(a), Some(b), Some(c)) => Some((a, b, c)),
        _ => None,
    }
}

/// Lexicographic order of versions.
pub open spec fn version_gt(l: (u32, u32, u32), c: (u32, u32, u32)) -> bool {
    l.0 > c.0 || (l.0 == c.0 && (l.1 > c.1 || (l.1 == c.1 && l.2 > c.2)))
}

/// `latest` is a newer version than `current`; unreadable versions never
/// are.
pub open spec fn newer_spec(latest: Seq<char>, current: Seq<char>) -> bool {
    match (version_of(latest), version_of(current)) {
        (Some(l), Some(c)) => version_gt(l, c),
        _ => false,
    }
}

/// "Newer" is a strict order on versions: never newer than itself, never
/// both ways, and transitive.
pub proof fn law_newer_is_a_strict_order(a: Seq<char>, b: Seq<char>, c: Seq<char>)
    ensures
        !newer_spec(a, a),
        newer_spec(a, b) ==> !newer_spec(b, a),
        newer_spec(a, b) && newer_spec(b, c) ==> newer_spec(a, c),
{
}

pub fn is_newer(latest: &str, current: &str) -> (r: bool)
    ensures
        r == newer_spec(latest@, current@),
{
    match (parse_version(latest), parse_version(current)) {
        (Some(l), Some(c)) => l.0 > c.0 || (l.0 == c.0 && (l.1 > c.1 || (l.1 == c.1 && l.2 > c.2))),
        _ => false,
    }
}

/// A check remembered at `last` is stale at `now` once a full day has
/// passed (`last` in the future counts as no time passed).
pub open spec fn cache_expired_spec(now: u64, last: u64) -> bool {
    (if now >= last {
        now - last
    } else {
        0
    }) >= CACHE_TTL_SECS
}

pub fn cache_expired(now: u64, last: u64) -> (r: bool)
    ensures
        r == cache_expired_spec(now, last),
{
    now.saturating_sub(last) >= CACHE_TTL_SECS
}

/// The network is asked when forced, when no check is remembered, or when
/// the remembered one has expired.
pub open spec fn check_due_spec(force: bool, last: Option<u64>, now: u64) -> bool {
    force || match last {
        Some(l) => cache_expired_spec(now, l),
        None => true,
    }
}

pub fn check_due(force: bool, last: Option<u64>, now: u64) -> (r: bool)
    ensures
        r == check_due_spec(force, last, now),
{
    force || match last {
        Some(l) => cache_expired(now, l),
        None => true,
    }
}

/// Index of the first whitespace character of `s`, or `s.len()`.
pub open spec fn first_ws(s: Seq<char>) -> int
    decreases s.len(),
{
    if s.len() == 0 {
        0
    } else if text::is_ws(s[0]) {
        0
    } else {
        1 + first_ws(s.drop_first())
    }
}

proof fn lemma_first_ws(s: Seq<char>)
    ensures
        0 <= first_ws(s) <= s.len(),
        first_ws(s) < s.len() ==> text::is_ws(s[first_ws(s)]),
        forall|j: int| 0 <= j < first_ws(s) ==> !text::is_ws(#[trigger] s[j]),
    decreases s.len(),
{
    if s.len() > 0 && !text::is_ws(s[0]) {
        lemma_first_ws(s.drop_first());
        assert forall|j: int| 0 <= j < first_ws(s) implies !text::is_ws(#[trigger] s[j]) by {
            if j > 0 {
                assert(s[j] == s.drop_first()[j - 1]);
            }
        }
    }
}

/// The first whitespace-separated word of `s` and what follows it.
pub open spec fn next_word(s: Seq<char>) -> Option<(Seq<char>, Seq<char>)> {
    let a = text::first_non_ws(s);
    if a >= s.len() {
        None
    } else {
        let t = s.subrange(a, s.len() as int);
        let i = first_ws(t);
        Some((t.subrange(0, i), t.subrange(i, t.len() as int)))
    }
}

pub fn next_word_of(s: &str) -> (r: Option<(String, String)>)
    ensures
        match r {
            Some((w, rest)) => next_word(s@) == Some((w@, rest@)),
            None => next_word(s@) is None,
        },
{
    let cs = text::chars_of(s);
    let mut a: usize = 0;
    while a < cs.len() && text::is_whitespace(cs[a])
        invariant
            a <= cs.len(),
            cs@ == s@,
            forall|j: int| 0 <= j < a ==> text::is_ws(#[trigger] cs@[j]),
        decreases cs.len() - a,
    {
        a = a + 1;
    }
    proof {
        text::lemma_trim_start(s@);
        let f = text::first_non_ws(s@);
        if (a as int) < f {
            assert(text::is_ws(s@[a as int]));
        }
        if f < (a as int) {
            assert(text::is_ws(cs@[f]));
        }
    }
    if a >= cs.len() {
        return None;
    }
    let mut b: usize = a;
    while b < cs.len() && !text::is_whitespace(cs[b])
        invariant
            a <= b <= cs.len(),
            cs@ == s@,
            forall|j: int| a <= j < b ==> !text::is_ws(#[trigger] cs@[j]),
        decreases cs.len() - b,
    {
        b = b + 1;
    }
    proof {
        let t = s@.subrange(a as int, s@.len() as int);
        lemma_first_ws(t);
        let f = first_ws(t);
        if (b - a) < f {
            assert(t[b - a] == cs@[b as int]);
        }
        if f < (b - a) {
            assert(t[f] == cs@[a + f]);
        }
        assert(t.subrange(0, f) =~= cs@.subrange(a as int, b as int));
        assert(t.subrange(f, t.len() as int) =~= cs@.subrange(b as int, cs@.len() as int));
    }
    Some((text::string_of_range(&cs, a, b), text::string_of_range(&cs, b, cs.len())))
}

/// The checksum a line gives for `asset`: `<hash> <name>`.
pub open spec fn line_checksum(line: Seq<char>, asset: Seq<char>) -> Option<Seq<char>> {
    match next_word(line) {
        Some((h, rest)) => match next_word(rest) {
            Some((n, _)) => if text::trim_spec(n) == asset {
                Some(text::trim_spec(h))
            } else {
                None
            },
            None => None,
        },
        None => None,
    }
}

/// `s` without one trailing carriage return.
pub open spec fn strip_cr(s: Seq<char>) -> Seq<char> {
    if s.len() > 0 && s.last() == '\r' {
        s.drop_last()
    } else {
        s
    }
}

/// The lines of a text as std's `str::lines` gives them: split at `\n`
/// (a `\r` before it dropped), with no empty last line.
pub open spec fn lines_of(body: Seq<char>) -> Seq<Seq<char>> {
    let p = text::split_parts(body, '\n');
    let n: int = if p.last().len() == 0 {
        p.len() - 1
    } else {
        p.len() as int
    };
    Seq::new(
        n as nat,
        |i: int|
            if i < p.len() - 1 {
                strip_cr(p[i])
            } else {
                p[i]
            },
    )
}

/// The first line among `lines` that gives a checksum for `asset`.
pub open spec fn first_checksum(lines: Seq<Seq<char>>, asset: Seq<char>) -> Option<Seq<char>>
    decreases lines.len(),
{
    if lines.len() == 0 {
        None
    } else {
        match line_checksum(lines[0], asset) {
            Some(h) => Some(h),
            None => first_checksum(lines.drop_first(), asset),
        }
    }
}

fn line_checksum_of(line: &str, asset: &str) -> (r: Option<String>)
    ensures
        match r {
            Some(h) => line_checksum(line@, asset@) == Some(h@),
            None => line_checksum(line@, asset@) is None,
        },
{
    let (h, rest) = match next_word_of(line) {
        Some(x) => x,
        None => return None,
    };
    let (n, _) = match next_word_of(rest.as_str()) {
        Some(x) => x,
        None => return None,
    };
    let nt = text::trim(n.as_str());
    if text::str_eq(nt.as_str(), asset) {
        Some(text::trim(h.as_str()))
    } else {
        None
    }
}

fn strip_cr_of(s: &String) -> (r: String)
    ensures
        r@ == strip_cr(s@),
{
    let cs = text::chars_of(s.as_str());
    if cs.len() > 0 && cs[cs.len() - 1] == '\r' {
        text::string_of_range(&cs, 0, cs.len() - 1)
    } else {
        assert(cs@.subrange(0, cs@.len() as int) =~= cs@);
        text::string_of(&cs)
    }
}

proof fn lemma_first_checksum_skip(lines: Seq<Seq<char>>, asset: Seq<char>, i: int)
    requires
        0 <= i < lines.len(),
        line_checksum(lines[i], asset) is None,
    ensures
        first_checksum(lines.subrange(i, lines.len() as int), asset) == first_checksum(
            lines.subrange(i + 1, lines.len() as int),
            asset,
        ),
{
    assert(lines.subrange(i, lines.len() as int).drop_first() =~= lines.subrange(
        i + 1,
        lines.len() as int,
    ));
}

/// The checksum of `asset` in a `SHA256SUMS` text.
pub fn find_checksum(body: &str, asset: &str) -> (r: Option<String>)
    ensures
        match r {
            Some(h) => first_checksum(lines_of(body@), asset@) == Some(h@),
            None => first_checksum(lines_of(body@), asset@) is None,
        },
{
    let parts = text::split_on(body, '\n');
    let ghost p = text::split_parts(body@, '\n');
    let ghost ls = lines_of(body@);
    proof {
        assert(parts@.len() == p.len());
        text::lemma_split_parts_len(body@, '\n');
    }
    let n = parts.len();
    let count: usize = if parts[n - 1].as_str().is_empty() {
        n - 1
    } else {
        n
    };
    proof {
        assert(parts@[n - 1]@ == p[n - 1]);
        assert(count == ls.len());
        assert(ls.subrange(0, ls.len() as int) =~= ls);
    }
    let mut i: usize = 0;
    while i < count
        invariant
            i <= count <= n,
            n == parts@.len(),
            count == ls.len(),
            p == text::split_parts(body@, '\n'),
            ls == lines_of(body@),
            parts@.len() == p.len(),
            forall|k: int| 0 <= k < n ==> (#[trigger] parts@[k])@ == p[k],
            first_checksum(ls, asset@) == first_checksum(ls.subrange(i as int, ls.len() as int), asset@),
        decreases count - i,
    {
        let line = if i + 1 < n {
            strip_cr_of(&parts[i])
        } else {
            text::to_owned(parts[i].as_str())
        };
        assert(line@ == ls[i as int]);
        match line_checksum_of(line.as_str(), asset) {
            Some(h) => {
                assert(ls.subrange(i as int, ls.len() as int)[0] == ls[i as int]);
                return Some(h);
            },
            None => {},
        }
        proof {
            lemma_first_checksum_skip(ls, asset@, i as int);
        }
        i = i + 1;
    }
    assert(ls.subrange(i as int, ls.len() as int) =~= Seq::<Seq<char>>::empty());
    None
}

/// The release tag of a release document (`tag_name`, trimmed), when not
/// blank.
pub open spec fn tag_of(v: JsonDoc) -> Option<Seq<char>> {
    let t = text::trim_spec(
        match json::str_field(Some(v), "tag_name"@) {
            Some(s) => s,
            None => Seq::empty(),
        },
    );
    if t.len() == 0 {
        None
    } else {
        Some(t)
    }
}

/// The release tag of a release document.
pub fn fetch_tag(v: &serde_json::Value) -> (r: Option<String>)
    ensures
        match r {
            Some(t) => tag_of(json::json_view(*v)) == Some(t@),
            None => tag_of(json::json_view(*v)) is None,
        },
{
    let raw: &str = match json::get(v, "tag_name") {
        Some(x) => match json::as_str(x) {
            Some(s) => s,
            None => "",
        },
        None => "",
    };
    proof {
        if json::str_field(Some(json::json_view(*v)), "tag_name"@) is None {
            reveal_strlit("");
            assert(raw@ =~= Seq::<char>::empty());
        }
    }
    let t = text::trim(raw);
    if t.as_str().is_empty() {
        None
    } else {
        Some(t)
    }
}

/// The download URL of the first asset named `name` that has one.
pub open spec fn asset_url(assets: Seq<JsonDoc>, name: Seq<char>) -> Option<Seq<char>>
    decreases assets.len(),
{
    if assets.len() == 0 {
        None
    } else {
        let rest = asset_url(assets.drop_first(), name);
        if json::str_field(Some(assets[0]), "name"@) == Some(name) {
            match json::str_field(Some(assets[0]), "browser_download_url"@) {
                Some(u) => Some(u),
                None => rest,
            }
        } else {
            rest
        }
    }
}

/// The assets of a release document (`assets`, when an array).
pub open spec fn assets_of(v: JsonDoc) -> Seq<JsonDoc> {
    match json::field(v, "assets"@) {
        Some(JsonDoc::Arr(a)) => a,
        _ => Seq::empty(),
    }
}

proof fn lemma_asset_url_skip(assets: Seq<JsonDoc>, name: Seq<char>, i: int)
    requires
        0 <= i < assets.len(),
    ensures
        asset_url(assets.subrange(i, assets.len() as int), name) == {
            let a = assets[i];
            let rest = asset_url(assets.subrange(i + 1, assets.len() as int), name);
            if json::str_field(Some(a), "name"@) == Some(name) {
                match json::str_field(Some(a), "browser_download_url"@) {
                    Some(u) => Some(u),
                    None => rest,
                }
            } else {
                rest
            }
        },
{
    assert(assets.subrange(i, assets.len() as int).drop_first() =~= assets.subrange(
        i + 1,
        assets.len() as int,
    ));
}

fn find_asset_url(v: &serde_json::Value, name: &str) -> (r: Option<String>)
    ensures
        match r {
            Some(u) => asset_url(assets_of(json::json_view(*v)), name@) == Some(u@),
            None => asset_url(assets_of(json::json_view(*v)), name@) is None,
        },
{
    let arr = match json::get(v, "assets") {
        Some(a) => match json::as_array(a) {
            Some(arr) => arr,
            None => return None,
        },
        None => return None,
    };
    let ghost assets = assets_of(json::json_view(*v));
    assert(assets == arr@.map_values(|x: serde_json::Value| json::json_view(x)));
    assert(assets.subrange(0, assets.len() as int) =~= assets);
    let mut i: usize = 0;
    while i < arr.len()
        invariant
            i <= arr.len(),
            assets == assets_of(json::json_view(*v)),
            assets == arr@.map_values(|x: serde_json::Value| json::json_view(x)),
            asset_url(assets, name@) == asset_url(assets.subrange(i as int, assets.len() as int), name@),
        decreases arr.len() - i,
    {
        let a = &arr[i];
        proof {
            lemma_asset_url_skip(assets, name@, i as int);
            assert(assets[i as int] == json::json_view(*a));
        }
        match json::get(a, "name") {
            Some(x) => match json::as_str(x) {
                Some(n) => if text::str_eq(n, name) {
                    match json::get(a, "browser_download_url") {
                        Some(y) => match json::as_str(y) {
                            Some(u) => {
                                return Some(text::to_owned(u));
                            },
                            None => {},
                        },
                        None => {},
                    }
                },
                None => {},
            },
            None => {},
        }
        i = i + 1;
    }
    assert(assets.subrange(i as int, assets.len() as int) =~= Seq::<JsonDoc>::empty());
    None
}

/// What a release document offers an installation of `current` on
/// `target`: a newer tagged release with this platform's binary and the
/// checksum list, else nothing.
pub open spec fn release_of(
    v: JsonDoc,
    target: Seq<char>,
    current: Seq<char>,
    windows: bool,
    r: Option<ReleaseInfo>,
) -> bool {
    match tag_of(v) {
        None => r is None,
        Some(tag) => {
            let version = strip_leading(tag, 'v');
            let asset = asset_name(target, windows);
            if !newer_spec(version, text::trim_spec(current)) {
                r is None
            } else {
                match (
                    asset_url(assets_of(v), asset),
                    asset_url(assets_of(v), "SHA256SUMS.txt"@),
                ) {
                    (Some(b), Some(c)) => r matches Some(info) && info.tag@ == tag && info.version@
                        == version && info.binary_url@ == b && info.checksum_url@ == c
                        && info.asset@ == asset,
                    _ => r is None,
                }
            }
        },
    }
}

/// Reads a fetched `releases/latest` document.
pub fn release_from_doc(v: &serde_json::Value, target: &str, current_version: &str, windows: bool) -> (r:
    Option<ReleaseInfo>)
    ensures
        release_of(json::json_view(*v), target@, current_version@, windows, r),
{
    let current = text::trim(current_version);
    let tag = match fetch_tag(v) {
        Some(t) => t,
        None => return None,
    };
    let version = strip_leading_of(tag.as_str(), 'v');
    if !is_newer(version.as_str(), current.as_str()) {
        return None;
    }
    let asset = asset_name_for_target(target, windows);
    let binary_url = match find_asset_url(v, asset.as_str()) {
        Some(u) => u,
        None => return None,
    };
    let checksum_url = match find_asset_url(v, "SHA256SUMS.txt") {
        Some(u) => u,
        None => return None,
    };
    Some(ReleaseInfo { tag, version, binary_url, checksum_url, asset })
}

/// Reads the body of a `releases/latest` response: nothing when it is not
/// JSON.
pub fn release_from_text(body: &str, target: &str, current_version: &str, windows: bool) -> (r: Option<
    ReleaseInfo,
>)
    ensures
        match json::json_parse_text(body@) {
            Some(d) => release_of(d, target@, current_version@, windows, r),
            None => r is None,
        },
{
    match json::parse_json(body) {
        Ok(v) => release_from_doc(&v, target, current_version, windows),
        Err(_) => None,
    }
}

/// When updates were last checked, from the text of `update-check.json`.
pub fn last_check_of(text: &str) -> (r: Option<u64>)
    ensures
        r == match json::field_of(json::json_parse_text(text@), "last_check"@) {
            Some(d) => json::as_u64_of(d),
            None => None,
        },
{
    match json::parse_json(text) {
        Ok(v) => match json::get(&v, "last_check") {
            Some(x) => json::as_u64(x),
            None => None,
        },
        Err(_) => None,
    }
}

/// The text of `update-check.json` recording a check at `now`.
pub fn check_record_text(now: u64) -> (r: String)
    ensures
        r@ == "{\"last_check\":"@ + text::dec(now as int) + "}"@,
{
    let mut s = text::cat("{\"last_check\":", text::fmt_u64(now).as_str());
    text::push_str(&mut s, "}");
    s
}

/// Lower-case hex of the SHA-256 digest of `bytes`.
pub fn sha256_hex(bytes: &[u8]) -> (r: String)
    ensures
        r@ == oauth::hex_lower(oauth::sha256(bytes@)),
{
    let d = oauth::sha256_digest(bytes);
    oauth::hex_of(&d)
}

/// The message when the checksum list has no line for this platform.
pub open spec fn missing_checksum_msg() -> Seq<char> {
    "校验文件缺失本平台条目，已中止升级"@
}

/// The message when the download's digest differs.
pub open spec fn checksum_mismatch_msg() -> Seq<char> {
    "SHA256 校验失败，已中止升级（旧版不受影响）"@
}

/// Checks a downloaded binary against the checksum list: its line for
/// `asset` must give the binary's SHA-256 (hex, ASCII case ignored).
pub fn verify_checksum(bin: &[u8], sums: &str, asset: &str) -> (r: Result<(), String>)
    ensures
        match first_checksum(lines_of(sums@), asset@) {
            None => r matches Err(m) && m@ == missing_checksum_msg(),
            Some(h) => if text::ascii_lower_seq(oauth::hex_lower(oauth::sha256(bin@)))
                == text::ascii_lower_seq(text::trim_spec(h)) {
                r is Ok
            } else {
                r matches Err(m) && m@ == checksum_mismatch_msg()
            },
        },
{
    let expected = match find_checksum(sums, asset) {
        Some(h) => h,
        None => return Err(text::to_owned("校验文件缺失本平台条目，已中止升级")),
    };
    let actual = sha256_hex(bin);
    let a = text::to_ascii_lowercase(actual.as_str());
    let e = text::to_ascii_lowercase(text::trim(expected.as_str()).as_str());
    if !text::str_eq(a.as_str(), e.as_str()) {
        return Err(text::to_owned("SHA256 校验失败，已中止升级（旧版不受影响）"));
    }
    Ok(())
}

/// The name the new binary is downloaded under, beside the current one.
pub open spec fn update_tmp_name(file_name: Option<Seq<char>>) -> Seq<char> {
    let base = match file_name {
        Some(n) => n,
        None => "hangar"@,
    };
    base + ".update-tmp"@
}

/// The name the replaced binary is moved to on Windows.
pub open spec fn old_name(file_name: Option<Seq<char>>) -> Seq<char> {
    let base = match file_name {
        Some(n) => n,
        None => "hangar"@,
    };
    base + ".old"@
}

/// The download's file name for a binary named `file_name` (`hangar`
/// when it has none).
pub fn tmp_name_for(file_name: Option<&str>) -> (r: String)
    ensures
        r@ == update_tmp_name(
            match file_name {
                Some(n) => Some(n@),
                None => None,
            },
        ),
{
    let base = match file_name {
        Some(n) => n,
        None => "hangar",
    };
    text::cat(base, ".update-tmp")
}

/// The backup's file name for a binary named `file_name`.
pub fn old_name_for(file_name: Option<&str>) -> (r: String)
    ensures
        r@ == old_name(
            match file_name {
                Some(n) => Some(n@),
                None => None,
            },
        ),
{
    let base = match file_name {
        Some(n) => n,
        None => "hangar",
    };
    text::cat(base, ".old")
}

/// The lines of a text (std's `str::lines`).
pub fn lines(body: &str) -> (r: Vec<String>)
    ensures
        r@.map_values(|x: String| x@) == lines_of(body@),
{
    let parts = text::split_on(body, '\n');
    let ghost p = text::split_parts(body@, '\n');
    let ghost ls = lines_of(body@);
    proof {
        assert(parts@.len() == p.len());
        text::lemma_split_parts_len(body@, '\n');
    }
    let n = parts.len();
    let count: usize = if parts[n - 1].as_str().is_empty() {
        n - 1
    } else {
        n
    };
    proof {
        assert(parts@[n - 1]@ == p[n - 1]);
        assert(count == ls.len());
    }
    let mut out: Vec<String> = Vec::new();
    let mut i: usize = 0;
    while i < count
        invariant
            i <= count <= n,
            n == parts@.len(),
            count == ls.len(),
            p == text::split_parts(body@, '\n'),
            ls == lines_of(body@),
            parts@.len() == p.len(),
            forall|k: int| 0 <= k < n ==> (#[trigger] parts@[k])@ == p[k],
            out@.len() == i,
            forall|k: int| 0 <= k < i ==> (#[trigger] out@[k])@ == ls[k],
        decreases count - i,
    {
        let line = if i + 1 < n {
            strip_cr_of(&parts[i])
        } else {
            text::to_owned(parts[i].as_str())
        };
        out.push(line);
        i = i + 1;
    }
    assert(out@.map_values(|x: String| x@) =~= ls);
    out
}

/// "Newer" compares readable versions by major, then minor, then patch
/// number: a greater major is newer; with the same major a greater minor
/// is; with the same major and minor a greater patch is (a patch release is
/// an update); and nothing else is.
pub proof fn law_newer_is_the_version_order(
    latest: Seq<char>,
    current: Seq<char>,
    l: (u32, u32, u32),
    c: (u32, u32, u32),
)
    requires
        version_of(latest) == Some(l),
        version_of(current) == Some(c),
    ensures
        l.0 > c.0 ==> newer_spec(latest, current),
        l.0 == c.0 && l.1 > c.1 ==> newer_spec(latest, current),
        l.0 == c.0 && l.1 == c.1 && l.2 > c.2 ==> newer_spec(latest, current),
        newer_spec(latest, current) ==> l.0 > c.0 || (l.0 == c.0 && l.1 > c.1) || (l.0 == c.0 && l.1
            == c.1 && l.2 > c.2),
{
}

/// An unreadable version is never newer, nor older.
pub proof fn law_unreadable_versions_are_never_newer(latest: Seq<char>, current: Seq<char>)
    requires
        version_of(latest) is None || version_of(current) is None,
    ensures
        !newer_spec(latest, current),
{
}

} // verus!
