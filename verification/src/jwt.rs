//! JWT payload reading: the claims segment of a token, base64url-decoded
//! and parsed as JSON. Nothing here checks a signature.

use base64::Engine as _;
use crate::json::{self, JsonDoc};
use crate::text;
use vstd::prelude::*;

verus! {

/// What the base64 crate's `URL_SAFE_NO_PAD.decode` makes of a text
/// (`None`: rejected).
pub uninterp spec fn base64url_decode(s: Seq<char>) -> Option<Seq<u8>>;

/// base64's `URL_SAFE_NO_PAD.decode`: no padding and no trailing bits are
/// accepted, so it gives back exactly the bytes whose unpadded base64url
/// text `s` is, and fails when no bytes have that text.
#[verifier::external_body]
pub(crate) fn b64url_decode(s: &str) -> (r: Option<Vec<u8>>)
    ensures
        match r {
            Some(b) => base64url_decode(s@) == Some(b@) && crate::oauth::b64url_nopad(b@) == s@,
            None => base64url_decode(s@) is None && forall|b: Seq<u8>| #[trigger]
                crate::oauth::b64url_nopad(b) != s@,
        },
{
    base64::engine::general_purpose::URL_SAFE_NO_PAD.decode(s).ok()
}

/// Index of the first `c` in `s`, or `s.len()`.
pub open spec fn find_char(s: Seq<char>, c: char) -> int
    decreases s.len(),
{
    if s.len() == 0 {
        0
    } else if s[0] == c {
        0
    } else {
        1 + find_char(s.drop_first(), c)
    }
}

proof fn lemma_find_char(s: Seq<char>, c: char)
    ensures
        0 <= find_char(s, c) <= s.len(),
        find_char(s, c) < s.len() ==> s[find_char(s, c)] == c,
        forall|j: int| 0 <= j < find_char(s, c) ==> s[j] != c,
    decreases s.len(),
{
    if s.len() > 0 && s[0] != c {
        lemma_find_char(s.drop_first(), c);
        assert forall|j: int| 0 <= j < find_char(s, c) implies s[j] != c by {
            if j > 0 {
                assert(s[j] == s.drop_first()[j - 1]);
            }
        }
    }
}

/// The second `'.'`-separated segment of `s` (`s.split('.').nth(1)`).
pub open spec fn second_segment(s: Seq<char>) -> Option<Seq<char>> {
    let i = find_char(s, '.');
    if i >= s.len() {
        None
    } else {
        let rest = s.subrange(i + 1, s.len() as int);
        Some(rest.subrange(0, find_char(rest, '.')))
    }
}

/// `s` without trailing `c` characters (`trim_end_matches(c)`).
pub open spec fn strip_trailing(s: Seq<char>, c: char) -> Seq<char>
    decreases s.len(),
{
    if s.len() > 0 && s.last() == c {
        strip_trailing(s.drop_last(), c)
    } else {
        s
    }
}

fn find_char_exec(cs: &Vec<char>, from: usize, c: char) -> (r: usize)
    requires
        from <= cs.len(),
    ensures
        r as int == from + find_char(cs@.subrange(from as int, cs.len() as int), c),
{
    proof {
        lemma_find_char(cs@.subrange(from as int, cs.len() as int), c);
    }
    let mut i = from;
    while i < cs.len() && cs[i] != c
        invariant
            from <= i <= cs.len(),
            forall|j: int| from <= j < i ==> cs@[j] != c,
        decreases cs.len() - i,
    {
        i = i + 1;
    }
    proof {
        let t = cs@.subrange(from as int, cs.len() as int);
        let f = find_char(t, c);
        if f < i - from {
            assert(t[f] == cs@[from + f]);
        }
        if i - from < f {
            assert(t[i - from] == cs@[i as int]);
        }
    }
    i
}

/// The second `'.'`-separated segment of a string.
pub fn second_segment_of(s: &str) -> (r: Option<String>)
    ensures
        match r {
            Some(x) => second_segment(s@) == Some(x@),
            None => second_segment(s@) is None,
        },
{
    let cs = chars_of_str(s);
    let i = find_char_exec(&cs, 0, '.');
    assert(cs@.subrange(0, cs@.len() as int) =~= cs@);
    if i >= cs.len() {
        return None;
    }
    let j = find_char_exec(&cs, i + 1, '.');
    proof {
        let rest = cs@.subrange(i + 1, cs.len() as int);
        lemma_find_char(rest, '.');
        assert(rest.subrange(0, find_char(rest, '.')) =~= cs@.subrange(i + 1, j as int));
    }
    Some(text::string_of_range(&cs, i + 1, j))
}

fn chars_of_str(s: &str) -> (r: Vec<char>)
    ensures
        r@ == s@,
{
    text::chars_of(s)
}

/// A string without its trailing `c` characters.
pub fn strip_trailing_of(s: &str, c: char) -> (r: String)
    ensures
        r@ == strip_trailing(s@, c),
{
    let cs = chars_of_str(s);
    let mut n = cs.len();
    assert(cs@.subrange(0, cs@.len() as int) =~= cs@);
    while n > 0 && cs[n - 1] == c
        invariant
            n <= cs.len(),
            strip_trailing(cs@, c) == strip_trailing(cs@.subrange(0, n as int), c),
        decreases n,
    {
        assert(cs@.subrange(0, n as int).drop_last() =~= cs@.subrange(0, n - 1));
        n = n - 1;
    }
    assert(n > 0 ==> cs@.subrange(0, n as int).last() == cs@[n - 1]);
    text::string_of_range(&cs, 0, n)
}

/// A payload segment base64url-decoded (after dropping trailing `'='` when
/// `strip` holds) and parsed as JSON.
pub open spec fn payload_claims(seg: Seq<char>, strip: bool) -> Option<JsonDoc> {
    match base64url_decode(if strip {
        strip_trailing(seg, '=')
    } else {
        seg
    }) {
        Some(bytes) => json::json_parse_bytes(bytes),
        None => None,
    }
}

/// The claims of a JWT: its trimmed token's second segment without trailing
/// `'='`, base64url-decoded, parsed as JSON.
pub open spec fn claims_of(token: Seq<char>) -> Option<JsonDoc> {
    match second_segment(text::trim_spec(token)) {
        Some(seg) => payload_claims(seg, true),
        None => None,
    }
}

/// The claims of a JWT read strictly: the untrimmed token's second segment,
/// base64url-decoded as it stands, parsed as JSON.
pub open spec fn strict_claims_of(token: Seq<char>) -> Option<JsonDoc> {
    match second_segment(token) {
        Some(seg) => payload_claims(seg, false),
        None => None,
    }
}

/// Decodes one payload segment into JSON.
pub fn decode_payload(seg: &str, strip: bool) -> (r: Option<serde_json::Value>)
    ensures
        match r {
            Some(v) => payload_claims(seg@, strip) == Some(json::json_view(v)),
            None => payload_claims(seg@, strip) is None,
        },
{
    let input = if strip {
        strip_trailing_of(seg, '=')
    } else {
        text::to_owned(seg)
    };
    let bytes = match b64url_decode(input.as_str()) {
        Some(b) => b,
        None => return None,
    };
    json::parse_json_bytes(bytes.as_slice())
}

/// Reads the claims of a JWT strictly (no trimming, no padding removal).
pub fn strict_claims(token: &str) -> (r: Option<serde_json::Value>)
    ensures
        match r {
            Some(v) => strict_claims_of(token@) == Some(json::json_view(v)),
            None => strict_claims_of(token@) is None,
        },
{
    match second_segment_of(token) {
        Some(seg) => decode_payload(seg.as_str(), false),
        None => None,
    }
}

/// Reads the claims of a JWT (no signature check).
pub fn jwt_claims(token: &str) -> (r: Option<serde_json::Value>)
    ensures
        match r {
            Some(v) => claims_of(token@) == Some(json::json_view(v)),
            None => claims_of(token@) is None,
        },
{
    let t = text::trim(token);
    match second_segment_of(t.as_str()) {
        Some(seg) => decode_payload(seg.as_str(), true),
        None => None,
    }
}

/// The `exp` claim (seconds) of a JWT.
pub open spec fn exp_of(token: Seq<char>) -> Option<i64> {
    json::i64_field(claims_of(token), "exp"@)
}

/// The `exp` claim of a JWT; `None` when the token is not a JWT or has no
/// integer `exp`.
pub fn jwt_exp(token: &str) -> (r: Option<i64>)
    ensures
        r == exp_of(token@),
{
    let claims = match jwt_claims(token) {
        Some(c) => c,
        None => return None,
    };
    match json::get(&claims, "exp") {
        Some(v) => json::as_i64(v),
        None => None,
    }
}

} // verus!
