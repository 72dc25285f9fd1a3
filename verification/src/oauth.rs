//! OAuth (PKCE) for Codex accounts: the authorize URL, the callback's
//! checks, token responses and refresh errors. The browser, the local
//! callback server and the HTTP exchanges are the caller's.

use base64::Engine as _;
use crate::account::{self, opt_view, Account};
use sha2::Digest as _;
use vstd::string::StringSliceAdditionalSpecFns;
use crate::json;
use crate::jwt;
use crate::text;
use vstd::prelude::*;

verus! {

/// The OAuth client id of the Codex desktop client.
pub const CLIENT_ID: &'static str = "app_EMoamEEZ73f0CkXaXp7hrann";

pub const AUTH_ENDPOINT: &'static str = "https://auth.openai.com/oauth/authorize";

pub const TOKEN_ENDPOINT: &'static str = "https://auth.openai.com/oauth/token";

pub const SCOPES: &'static str = "openid profile email offline_access api.connectors.read api.connectors.invoke";

pub const ORIGINATOR: &'static str = "Codex Desktop";

/// The callback port; the identity provider allows it and the fallback only.
pub const CALLBACK_PORT: u16 = 1455;

pub const FALLBACK_CALLBACK_PORT: u16 = 1457;

pub const HOSTED_AUTH_ENDPOINT: &'static str = "https://chatgpt.com/codex/desktop-auth";

/// A token endpoint response.
#[derive(Debug)]
pub struct TokenResponse {
    pub access_token: String,
    pub refresh_token: Option<String>,
    pub id_token: Option<String>,
    pub expires_in: Option<u64>,
    pub token_type: Option<String>,
}

/// A failed refresh.
#[derive(Debug)]
pub enum RefreshError {
    /// The token endpoint answered with an error status.
    AuthRejected { status: u16, code: Option<String>, body_len: usize },
    /// The request did not complete.
    Transport(String),
    /// The response could not be read.
    InvalidResponse(String),
}

/// The error codes that mean the refresh token itself is dead.
pub open spec fn dead_token_code(code: Seq<char>) -> bool {
    let c = text::ascii_lower_seq(code);
    c == "invalid_grant"@ || c == "refresh_token_reused"@ || c == "token_invalidated"@ || c
        == "authentication_token_invalidated"@ || c == "unauthorized"@
}

impl RefreshError {
    /// An auth rejection: status 401, or a dead-token error code.
    pub open spec fn is_auth_rejection_spec(&self) -> bool {
        match self {
            RefreshError::AuthRejected { status, code, .. } => *status == 401 || match code {
                Some(c) => dead_token_code(c@),
                None => false,
            },
            _ => false,
        }
    }

    /// Classifies a failed refresh without matching on message text.
    pub fn is_auth_rejection(&self) -> (r: bool)
        ensures
            r == self.is_auth_rejection_spec(),
    {
        match self {
            RefreshError::AuthRejected { status, code, .. } => {
                if *status == 401 {
                    return true;
                }
                match code {
                    Some(c) => {
                        let l = text::to_ascii_lowercase(c.as_str());
                        let s = l.as_str();
                        text::str_eq(s, "invalid_grant") || text::str_eq(s, "refresh_token_reused")
                            || text::str_eq(s, "token_invalidated") || text::str_eq(
                            s,
                            "authentication_token_invalidated",
                        ) || text::str_eq(s, "unauthorized")
                    },
                    None => false,
                }
            },
            _ => false,
        }
    }

    /// The message for people: status, error code and body length only,
    /// never the body.
    pub open spec fn message_spec(&self) -> Seq<char> {
        match self {
            RefreshError::AuthRejected { status, code, body_len } => "Token 刷新请求失败: HTTP "@
                + text::dec(*status as int) + match code {
                Some(c) => ", error_code="@ + c@,
                None => Seq::empty(),
            } + ", body_len="@ + text::dec(*body_len as int),
            RefreshError::Transport(m) => m@,
            RefreshError::InvalidResponse(m) => m@,
        }
    }

    pub fn to_message(&self) -> (r: String)
        ensures
            r@ == self.message_spec(),
    {
        match self {
            RefreshError::AuthRejected { status, code, body_len } => {
                let mut s = text::cat("Token 刷新请求失败: HTTP ", text::fmt_u64(*status as u64).as_str());
                match code {
                    Some(c) => {
                        text::push_str(&mut s, ", error_code=");
                        text::push_str(&mut s, c.as_str());
                    },
                    None => {},
                }
                text::push_str(&mut s, ", body_len=");
                text::push_str(&mut s, text::fmt_u64(*body_len as u64).as_str());
                s
            },
            RefreshError::Transport(m) => m.clone(),
            RefreshError::InvalidResponse(m) => m.clone(),
        }
    }
}

/// The error code of a token endpoint error body: `error` when a string,
/// else `error.code`, else `code`.
pub open spec fn token_error_code(body: Seq<char>) -> Option<Seq<char>> {
    let v = json::json_parse_text(body);
    match json::str_field(v, "error"@) {
        Some(e) => Some(e),
        None => match json::str_field(json::field_of(v, "error"@), "code"@) {
            Some(c) => Some(c),
            None => json::str_field(v, "code"@),
        },
    }
}

fn str_at(v: &serde_json::Value, key: &str) -> (r: Option<String>)
    ensures
        opt_view(r) == json::str_field(Some(json::json_view(*v)), key@),
{
    match json::get(v, key) {
        Some(x) => match json::as_str(x) {
            Some(s) => Some(text::to_owned(s)),
            None => None,
        },
        None => None,
    }
}

/// Extracts the error code of an error body, so that logs carry the code
/// and never the body.
pub fn extract_token_error_code(body: &str) -> (r: Option<String>)
    ensures
        opt_view(r) == token_error_code(body@),
{
    let v = match json::parse_json(body) {
        Ok(v) => v,
        Err(_) => return None,
    };
    if let Some(e) = str_at(&v, "error") {
        return Some(e);
    }
    let nested = match json::get(&v, "error") {
        Some(e) => str_at(e, "code"),
        None => None,
    };
    match nested {
        Some(c) => Some(c),
        None => str_at(&v, "code"),
    }
}

/// What a token response body holds, as serde's derive reads it:
/// `access_token` a string, the other members strings (or numbers) when
/// present and not null.
pub open spec fn token_response_of(body: Seq<char>, t: TokenResponse) -> bool {
    let v = json::json_parse_text(body);
    &&& json::str_field(v, "access_token"@) == Some(t.access_token@)
    &&& opt_view(t.refresh_token) == json::str_field(v, "refresh_token"@)
    &&& opt_view(t.id_token) == json::str_field(v, "id_token"@)
    &&& opt_view(t.token_type) == json::str_field(v, "token_type"@)
    &&& t.expires_in == match json::field_of(v, "expires_in"@) {
        Some(d) => json::as_u64_of(d),
        None => None,
    }
}

/// Reads a token response; `None` when the body is not JSON or has no
/// string `access_token`.
pub fn token_response_from_text(body: &str) -> (r: Option<TokenResponse>)
    ensures
        match r {
            Some(t) => token_response_of(body@, t),
            None => json::str_field(json::json_parse_text(body@), "access_token"@) is None,
        },
{
    let v = match json::parse_json(body) {
        Ok(v) => v,
        Err(_) => return None,
    };
    let access_token = match str_at(&v, "access_token") {
        Some(a) => a,
        None => return None,
    };
    let expires_in = match json::get(&v, "expires_in") {
        Some(e) => json::as_u64(e),
        None => None,
    };
    Some(
        TokenResponse {
            access_token,
            refresh_token: str_at(&v, "refresh_token"),
            id_token: str_at(&v, "id_token"),
            expires_in,
            token_type: str_at(&v, "token_type"),
        },
    )
}


/// The character of a hexadecimal digit `d < 16`, upper or lower case.
pub open spec fn hex_char(d: int, upper: bool) -> char {
    if d < 10 {
        text::digit_char(d)
    } else if upper {
        ((d - 10 + 65) as u32) as char
    } else {
        ((d - 10 + 97) as u32) as char
    }
}

fn hex_digit(d: u8, upper: bool) -> (c: char)
    requires
        d < 16,
    ensures
        c == hex_char(d as int, upper),
{
    if d < 10 {
        let v: u32 = 48 + d as u32;
        let c = text::char_from_ascii(v);
        assert(c == text::digit_char(d as int)) by {
            assert((48 + d) as u32 as char == text::digit_char(d as int));
        }
        c
    } else if upper {
        text::char_from_ascii(d as u32 - 10 + 65)
    } else {
        text::char_from_ascii(d as u32 - 10 + 97)
    }
}

/// Bytes percent-encoded as `%XX` (upper-case hex), except `keep` bytes.
pub open spec fn percent(b: u8) -> Seq<char> {
    seq!['%', hex_char((b / 16) as int, true), hex_char((b % 16) as int, true)]
}

/// RFC 3986 unreserved bytes, kept by the hosted-login encoder.
pub open spec fn unreserved(b: u8) -> bool {
    (65 <= b <= 90) || (97 <= b <= 122) || (48 <= b <= 57) || b == 45 || b == 95 || b == 46 || b
        == 126
}

/// Percent-encoding of every byte but the unreserved ones.
pub open spec fn urlencode_spec(bytes: Seq<u8>) -> Seq<char>
    decreases bytes.len(),
{
    if bytes.len() == 0 {
        Seq::empty()
    } else {
        urlencode_spec(bytes.drop_last()) + if unreserved(bytes.last()) {
            seq![bytes.last() as char]
        } else {
            percent(bytes.last())
        }
    }
}

/// Bytes that `application/x-www-form-urlencoded` leaves as they are.
pub open spec fn form_unchanged(b: u8) -> bool {
    (65 <= b <= 90) || (97 <= b <= 122) || (48 <= b <= 57) || b == 42 || b == 45 || b == 46 || b
        == 95
}

/// `application/x-www-form-urlencoded` serialisation of bytes (space
/// becomes `+`), as the url crate's `append_pair` writes it.
pub open spec fn form_encode_spec(bytes: Seq<u8>) -> Seq<char>
    decreases bytes.len(),
{
    if bytes.len() == 0 {
        Seq::empty()
    } else {
        form_encode_spec(bytes.drop_last()) + if form_unchanged(bytes.last()) {
            seq![bytes.last() as char]
        } else if bytes.last() == 32 {
            seq!['+']
        } else {
            percent(bytes.last())
        }
    }
}

fn push_percent(out: &mut String, b: u8)
    ensures
        final(out)@ == old(out)@ + percent(b),
{
    text::push_char(out, '%');
    text::push_char(out, hex_digit(b / 16, true));
    text::push_char(out, hex_digit(b % 16, true));
    assert(final(out)@ =~= old(out)@ + percent(b));
}

fn encode_bytes(bytes: &[u8], form: bool) -> (r: String)
    ensures
        r@ == if form {
            form_encode_spec(bytes@)
        } else {
            urlencode_spec(bytes@)
        },
{
    let mut out = String::new();
    let mut i: usize = 0;
    while i < bytes.len()
        invariant
            i <= bytes.len(),
            out@ == if form {
                form_encode_spec(bytes@.subrange(0, i as int))
            } else {
                urlencode_spec(bytes@.subrange(0, i as int))
            },
        decreases bytes.len() - i,
    {
        let b = bytes[i];
        let ghost pre = bytes@.subrange(0, i as int);
        assert(bytes@.subrange(0, i + 1).drop_last() =~= pre);
        assert(bytes@.subrange(0, i + 1).last() == b);
        let keep = if form {
            (65 <= b && b <= 90) || (97 <= b && b <= 122) || (48 <= b && b <= 57) || b == 42 || b
                == 45 || b == 46 || b == 95
        } else {
            (65 <= b && b <= 90) || (97 <= b && b <= 122) || (48 <= b && b <= 57) || b == 45 || b
                == 95 || b == 46 || b == 126
        };
        if keep {
            let c = text::char_from_ascii(b as u32);
            text::push_char(&mut out, c);
            assert(out@ =~= (if form {
                form_encode_spec(pre)
            } else {
                urlencode_spec(pre)
            }) + seq![b as char]);
        } else if form && b == 32 {
            text::push_char(&mut out, '+');
        } else {
            push_percent(&mut out, b);
        }
        i = i + 1;
    }
    assert(bytes@.subrange(0, bytes@.len() as int) =~= bytes@);
    out
}

/// Percent-encodes a string's bytes except the unreserved ones (the
/// hosted-login wrapper's encoding of the authorize URL).
pub fn urlencode(s: &str) -> (r: String)
    ensures
        r@ == urlencode_spec(s.spec_bytes()),
{
    encode_bytes(s.as_bytes(), false)
}

/// Form-encodes a string's bytes.
pub fn form_encode(s: &str) -> (r: String)
    ensures
        r@ == form_encode_spec(s.spec_bytes()),
{
    encode_bytes(s.as_bytes(), true)
}

/// `key=value` form-encoded.
pub open spec fn form_pair(k: Seq<u8>, v: Seq<u8>) -> Seq<char> {
    form_encode_spec(k) + seq!['='] + form_encode_spec(v)
}

fn push_form_pair(out: &mut String, k: &str, v: &str)
    ensures
        final(out)@ == old(out)@ + form_pair(k.spec_bytes(), v.spec_bytes()),
{
    let ghost start = out@;
    text::push_str(out, form_encode(k).as_str());
    text::push_char(out, '=');
    text::push_str(out, form_encode(v).as_str());
    assert(final(out)@ =~= start + form_pair(k.spec_bytes(), v.spec_bytes()));
}

fn push_amp_pair(out: &mut String, k: &str, v: &str)
    ensures
        final(out)@ == old(out)@ + "&"@ + form_pair(k.spec_bytes(), v.spec_bytes()),
{
    text::push_str(out, "&");
    push_form_pair(out, k, v);
}

/// The authorize URL: the endpoint with the PKCE and Codex client
/// parameters, form-encoded in this order.
pub open spec fn authorize_url_spec(redirect_uri: Seq<u8>, challenge: Seq<u8>, state: Seq<u8>) -> Seq<
    char,
> {
    AUTH_ENDPOINT@ + "?"@ + form_pair("response_type".spec_bytes(), "code".spec_bytes()) + "&"@
        + form_pair("client_id".spec_bytes(), CLIENT_ID.spec_bytes()) + "&"@ + form_pair(
        "redirect_uri".spec_bytes(),
        redirect_uri,
    ) + "&"@ + form_pair("scope".spec_bytes(), SCOPES.spec_bytes()) + "&"@ + form_pair(
        "code_challenge".spec_bytes(),
        challenge,
    ) + "&"@ + form_pair("code_challenge_method".spec_bytes(), "S256".spec_bytes()) + "&"@
        + form_pair("id_token_add_organizations".spec_bytes(), "true".spec_bytes()) + "&"@
        + form_pair("codex_cli_simplified_flow".spec_bytes(), "true".spec_bytes()) + "&"@
        + form_pair("codex_streamlined_login".spec_bytes(), "true".spec_bytes()) + "&"@ + form_pair(
        "state".spec_bytes(),
        state,
    ) + "&"@ + form_pair("originator".spec_bytes(), ORIGINATOR.spec_bytes())
}

/// Builds the authorize URL.
pub fn authorize_url(redirect_uri: &str, code_challenge: &str, state: &str) -> (r: String)
    ensures
        r@ == authorize_url_spec(
            redirect_uri.spec_bytes(),
            code_challenge.spec_bytes(),
            state.spec_bytes(),
        ),
{
    let mut out = text::cat(AUTH_ENDPOINT, "?");
    push_form_pair(&mut out, "response_type", "code");
    push_amp_pair(&mut out, "client_id", CLIENT_ID);
    push_amp_pair(&mut out, "redirect_uri", redirect_uri);
    push_amp_pair(&mut out, "scope", SCOPES);
    push_amp_pair(&mut out, "code_challenge", code_challenge);
    push_amp_pair(&mut out, "code_challenge_method", "S256");
    push_amp_pair(&mut out, "id_token_add_organizations", "true");
    push_amp_pair(&mut out, "codex_cli_simplified_flow", "true");
    push_amp_pair(&mut out, "codex_streamlined_login", "true");
    push_amp_pair(&mut out, "state", state);
    push_amp_pair(&mut out, "originator", ORIGINATOR);
    out
}

/// The hosted login page that wraps an authorize URL, as the desktop app
/// opens it.
pub open spec fn hosted_url_spec(authorize: Seq<u8>) -> Seq<char> {
    HOSTED_AUTH_ENDPOINT@ + "?authorize_url="@ + urlencode_spec(authorize)
        + "&codex_streamlined_login=true&no_universal_links=1"@
}

pub fn hosted_login_url(authorize: &str) -> (r: String)
    ensures
        r@ == hosted_url_spec(authorize.spec_bytes()),
{
    let mut out = text::cat(HOSTED_AUTH_ENDPOINT, "?authorize_url=");
    text::push_str(&mut out, urlencode(authorize).as_str());
    text::push_str(&mut out, "&codex_streamlined_login=true&no_universal_links=1");
    out
}

/// The redirect URI registered for a callback port.
pub open spec fn redirect_uri_spec(port: u16) -> Seq<char> {
    "http://localhost:"@ + text::dec(port as int) + "/auth/callback"@
}

pub fn redirect_uri(port: u16) -> (r: String)
    ensures
        r@ == redirect_uri_spec(port),
{
    let mut s = text::cat("http://localhost:", text::fmt_u64(port as u64).as_str());
    text::push_str(&mut s, "/auth/callback");
    s
}

/// Lower-case two-digit hex of bytes (`{:02x}` each).
pub open spec fn hex_lower(bytes: Seq<u8>) -> Seq<char>
    decreases bytes.len(),
{
    if bytes.len() == 0 {
        Seq::empty()
    } else {
        hex_lower(bytes.drop_last()) + seq![
            hex_char((bytes.last() / 16) as int, false),
            hex_char((bytes.last() % 16) as int, false),
        ]
    }
}

pub fn hex_of(bytes: &Vec<u8>) -> (r: String)
    ensures
        r@ == hex_lower(bytes@),
{
    let mut out = String::new();
    let mut i: usize = 0;
    while i < bytes.len()
        invariant
            i <= bytes.len(),
            out@ == hex_lower(bytes@.subrange(0, i as int)),
        decreases bytes.len() - i,
    {
        let b = bytes[i];
        assert(bytes@.subrange(0, i + 1).drop_last() =~= bytes@.subrange(0, i as int));
        text::push_char(&mut out, hex_digit(b / 16, false));
        text::push_char(&mut out, hex_digit(b % 16, false));
        i = i + 1;
        assert(out@ =~= hex_lower(bytes@.subrange(0, i as int)));
    }
    assert(bytes@.subrange(0, bytes@.len() as int) =~= bytes@);
    out
}

/// rand's `random::<u8>()`, `n` times: `n` bytes, of which nothing else is
/// stated (they are random).
#[verifier::external_body]
pub(crate) fn random_bytes(n: usize) -> (r: Vec<u8>)
    ensures
        r.len() == n,
{
    (0..n).map(|_| rand::random::<u8>()).collect()
}

/// The base64url alphabet.
pub open spec fn b64_char(v: int) -> char {
    if v < 26 {
        ((65 + v) as u32) as char
    } else if v < 52 {
        ((97 + v - 26) as u32) as char
    } else if v < 62 {
        ((48 + v - 52) as u32) as char
    } else if v == 62 {
        '-'
    } else {
        '_'
    }
}

/// base64url without padding.
pub open spec fn b64url_nopad(b: Seq<u8>) -> Seq<char>
    decreases b.len(),
{
    if b.len() == 0 {
        Seq::empty()
    } else if b.len() == 1 {
        seq![b64_char(b[0] as int / 4), b64_char((b[0] as int % 4) * 16)]
    } else if b.len() == 2 {
        seq![
            b64_char(b[0] as int / 4),
            b64_char((b[0] as int % 4) * 16 + b[1] as int / 16),
            b64_char((b[1] as int % 16) * 4),
        ]
    } else {
        seq![
            b64_char(b[0] as int / 4),
            b64_char((b[0] as int % 4) * 16 + b[1] as int / 16),
            b64_char((b[1] as int % 16) * 4 + b[2] as int / 64),
            b64_char(b[2] as int % 64),
        ] + b64url_nopad(b.subrange(3, b.len() as int))
    }
}

/// base64's `URL_SAFE_NO_PAD.encode`: claimed to give the base64url text
/// without padding, as `b64url_nopad` spells it out.
#[verifier::external_body]
pub(crate) fn b64url_encode(bytes: &[u8]) -> (r: String)
    ensures
        r@ == b64url_nopad(bytes@),
{
    base64::engine::general_purpose::URL_SAFE_NO_PAD.encode(bytes)
}

/// The SHA-256 digest that the sha2 crate computes.
pub uninterp spec fn sha256(bytes: Seq<u8>) -> Seq<u8>;

/// sha2's `Sha256::digest`: 32 bytes, named `sha256` of the input (the
/// same bytes give the same digest).
#[verifier::external_body]
pub(crate) fn sha256_digest(bytes: &[u8]) -> (r: Vec<u8>)
    ensures
        r@ == sha256(bytes@),
        r.len() == 32,
{
    sha2::Sha256::digest(bytes).to_vec()
}

/// A PKCE code verifier: 32 random bytes, base64url.
pub fn generate_code_verifier() -> (r: String)
    ensures
        exists|b: Seq<u8>| b.len() == 32 && r@ == b64url_nopad(b),
{
    let bytes = random_bytes(32);
    b64url_encode(bytes.as_slice())
}

/// The S256 code challenge of a verifier.
pub fn generate_code_challenge(verifier: &str) -> (r: String)
    ensures
        r@ == b64url_nopad(sha256(verifier.spec_bytes())),
{
    let digest = sha256_digest(verifier.as_bytes());
    b64url_encode(digest.as_slice())
}

/// A CSRF state token: 16 random bytes in lower-case hex.
pub fn generate_state_token() -> (r: String)
    ensures
        exists|b: Seq<u8>| b.len() == 16 && r@ == hex_lower(b),
{
    let bytes = random_bytes(16);
    hex_of(&bytes)
}


/// The parts of a URL that the callback checks read.
#[derive(Debug)]
pub struct UrlParts {
    pub host: Option<String>,
    pub path: String,
    /// The decoded query pairs, in order.
    pub query: Vec<(String, String)>,
}

/// What the url crate's `Url::parse` makes of a text: host, path and
/// decoded query pairs (`None`: rejected).
pub uninterp spec fn url_parse(text: Seq<char>) -> Option<
    (Option<Seq<char>>, Seq<char>, Seq<(Seq<char>, Seq<char>)>),
>;

/// The message of url's error for a rejected text.
pub uninterp spec fn url_error_text(text: Seq<char>) -> Seq<char>;

/// The views of query pairs.
pub open spec fn pairs_view(q: Seq<(String, String)>) -> Seq<(Seq<char>, Seq<char>)> {
    q.map_values(|p: (String, String)| (p.0@, p.1@))
}

/// url's `Url::parse`, read through `host_str`, `path` and `query_pairs`;
/// an error is given as its `Display` text.
#[verifier::external_body]
pub(crate) fn parse_url(text: &str) -> (r: Result<UrlParts, String>)
    ensures
        match r {
            Ok(p) => url_parse(text@) == Some((opt_view(p.host), p.path@, pairs_view(p.query@))),
            Err(e) => url_parse(text@) is None && e@ == url_error_text(text@),
        },
{
    match url::Url::parse(text) {
        Ok(u) => Ok(
            UrlParts {
                host: u.host_str().map(|h| h.to_string()),
                path: u.path().to_string(),
                query: u.query_pairs().map(|(k, v)| (k.into_owned(), v.into_owned())).collect(),
            },
        ),
        Err(e) => Err(e.to_string()),
    }
}

/// The value of the last pair with the key (what a map collected from the
/// pairs holds).
pub open spec fn last_value(pairs: Seq<(Seq<char>, Seq<char>)>, key: Seq<char>) -> Option<Seq<char>>
    decreases pairs.len(),
{
    if pairs.len() == 0 {
        None
    } else if pairs.last().0 == key {
        Some(pairs.last().1)
    } else {
        last_value(pairs.drop_last(), key)
    }
}

/// The value of the last pair with the key.
pub fn query_get(q: &Vec<(String, String)>, key: &str) -> (r: Option<String>)
    ensures
        opt_view(r) == last_value(pairs_view(q@), key@),
{
    let mut n = q.len();
    assert(pairs_view(q@).subrange(0, q@.len() as int) =~= pairs_view(q@));
    while n > 0
        invariant
            n <= q.len(),
            last_value(pairs_view(q@), key@) == last_value(pairs_view(q@).subrange(0, n as int), key@),
        decreases n,
    {
        let ghost sub = pairs_view(q@).subrange(0, n as int);
        assert(sub.last() == (q@[n - 1].0@, q@[n - 1].1@));
        if text::str_eq(q[n - 1].0.as_str(), key) {
            return Some(q[n - 1].1.clone());
        }
        assert(sub.drop_last() =~= pairs_view(q@).subrange(0, n - 1));
        n = n - 1;
    }
    None
}

/// Whether a callback URL is the local one: host `localhost` or
/// `127.0.0.1`, path `/auth/callback`.
pub open spec fn local_callback(host: Option<Seq<char>>, path: Seq<char>) -> bool {
    (host == Some("localhost"@) || host == Some("127.0.0.1"@)) && path == "/auth/callback"@
}

/// The authorization code a pasted callback URL yields for the expected
/// state: it parses, it is the local callback, its `state` matches, and
/// its `code` is not blank.
pub open spec fn callback_code(url: Seq<char>, expected_state: Seq<char>) -> Option<Seq<char>> {
    match url_parse(text::trim_spec(url)) {
        Some((host, path, q)) => if !local_callback(host, path) {
            None
        } else if (match last_value(q, "state"@) {
            Some(s) => s,
            None => Seq::empty(),
        }) != expected_state {
            None
        } else {
            match last_value(q, "code"@) {
                Some(c) => if text::trim_spec(c).len() != 0 {
                    Some(c)
                } else {
                    None
                },
                None => None,
            }
        },
        None => None,
    }
}

/// What a pasted callback URL gives: the code, or why it is refused.
pub open spec fn callback_result(url: Seq<char>, expected_state: Seq<char>) -> Result<Seq<char>, Seq<char>> {
    let t = text::trim_spec(url);
    match url_parse(t) {
        None => Err("URL 格式无效（请粘贴 http:// 开头的完整地址）: "@ + url_error_text(t)),
        Some((host, path, q)) => if !local_callback(host, path) {
            Err("回调地址无效：应为 http://localhost:1455（或1457）/auth/callback 开头的浏览器地址栏 URL"@)
        } else if (match last_value(q, "state"@) {
            Some(s) => s,
            None => Seq::empty(),
        }) != expected_state {
            Err("state 不匹配（请确认是本次登录的回调链接）"@)
        } else {
            match last_value(q, "code"@) {
                Some(c) => if text::trim_spec(c).len() != 0 {
                    Ok(c)
                } else {
                    Err("缺少 code 参数"@)
                },
                None => Err("缺少 code 参数"@),
            }
        },
    }
}

/// Parses a pasted callback URL (also used to check input before
/// submitting it); only the local callback with the expected state and a
/// code is accepted.
pub fn parse_code_from_callback_url(url: &str, expected_state: &str) -> (r: Result<String, String>)
    ensures
        match r {
            Ok(code) => callback_code(url@, expected_state@) == Some(code@),
            Err(_) => callback_code(url@, expected_state@) is None,
        },
        match callback_result(url@, expected_state@) {
            Ok(c) => r matches Ok(code) && code@ == c,
            Err(m) => r matches Err(e) && e@ == m,
        },
{
    let trimmed = text::trim(url);
    let parts = match parse_url(trimmed.as_str()) {
        Ok(p) => p,
        Err(e) => {
            return Err(text::cat("URL 格式无效（请粘贴 http:// 开头的完整地址）: ", e.as_str()));
        },
    };
    let host_ok = match &parts.host {
        Some(h) => text::str_eq(h.as_str(), "localhost") || text::str_eq(h.as_str(), "127.0.0.1"),
        None => false,
    };
    if !host_ok || !text::str_eq(parts.path.as_str(), "/auth/callback") {
        return Err(
            text::to_owned(
                "回调地址无效：应为 http://localhost:1455（或1457）/auth/callback 开头的浏览器地址栏 URL",
            ),
        );
    }
    let state = match query_get(&parts.query, "state") {
        Some(s) => s,
        None => String::new(),
    };
    if !text::str_eq(state.as_str(), expected_state) {
        return Err(text::to_owned("state 不匹配（请确认是本次登录的回调链接）"));
    }
    match query_get(&parts.query, "code") {
        Some(c) => if text::trim(c.as_str()).as_str().is_empty() {
            Err(text::to_owned("缺少 code 参数"))
        } else {
            Ok(c)
        },
        None => Err(text::to_owned("缺少 code 参数")),
    }
}

/// A pasted callback is bound to its login session: a URL whose code one
/// session accepts yields nothing to a session with another state.
pub proof fn law_callback_code_is_bound_to_its_session(
    url: Seq<char>,
    state: Seq<char>,
    other_state: Seq<char>,
)
    requires
        callback_code(url, state) is Some,
        other_state != state,
    ensures
        callback_code(url, other_state) is None,
{
}

/// How the local callback server answers one request.
#[derive(Debug)]
pub enum CallbackOutcome {
    /// The request URL does not parse: 400, keep listening.
    BadRequest,
    /// Not the callback path: 404, keep listening.
    NotFound,
    /// A code with a foreign state (forged or another session): 400, keep
    /// listening.
    StateMismatch,
    /// The authorization code: 200, stop.
    Code(String),
    /// The user or the provider refused: 400 with this message, stop.
    Denied(String),
}

/// The message for a refused authorization.
pub open spec fn denied_message(error: Seq<char>, desc: Seq<char>) -> Seq<char> {
    if desc.len() == 0 {
        "授权失败: "@ + error
    } else {
        "授权失败: "@ + error + "（"@ + desc + "）"@
    }
}

/// The value of a query key, or empty.
pub open spec fn value_or_empty(q: Seq<(Seq<char>, Seq<char>)>, key: Seq<char>) -> Seq<char> {
    match last_value(q, key) {
        Some(v) => v,
        None => Seq::empty(),
    }
}

/// Decides the answer to one callback request (CSRF check included).
pub fn callback_outcome(request_url: &str, expected_state: &str) -> (r: CallbackOutcome)
    ensures
        match url_parse("http://localhost"@ + request_url@) {
            None => r is BadRequest,
            Some((_, path, q)) => if path != "/auth/callback"@ {
                r is NotFound
            } else {
                match last_value(q, "code"@) {
                    Some(code) => if value_or_empty(q, "state"@) != expected_state@ {
                        r is StateMismatch
                    } else {
                        r matches CallbackOutcome::Code(c) && c@ == code
                    },
                    None => r matches CallbackOutcome::Denied(m) && m@ == denied_message(
                        value_or_empty(q, "error"@),
                        value_or_empty(q, "error_description"@),
                    ),
                }
            },
        },
{
    let full = text::cat("http://localhost", request_url);
    let parts = match parse_url(full.as_str()) {
        Ok(p) => p,
        Err(_) => return CallbackOutcome::BadRequest,
    };
    if !text::str_eq(parts.path.as_str(), "/auth/callback") {
        return CallbackOutcome::NotFound;
    }
    match query_get(&parts.query, "code") {
        Some(code) => {
            let state = match query_get(&parts.query, "state") {
                Some(s) => s,
                None => String::new(),
            };
            if !text::str_eq(state.as_str(), expected_state) {
                CallbackOutcome::StateMismatch
            } else {
                CallbackOutcome::Code(code)
            }
        },
        None => {
            let error = match query_get(&parts.query, "error") {
                Some(s) => s,
                None => String::new(),
            };
            let desc = match query_get(&parts.query, "error_description") {
                Some(s) => s,
                None => String::new(),
            };
            let mut msg = text::cat("授权失败: ", error.as_str());
            if !desc.as_str().is_empty() {
                text::push_str(&mut msg, "（");
                text::push_str(&mut msg, desc.as_str());
                text::push_str(&mut msg, "）");
            }
            CallbackOutcome::Denied(msg)
        },
    }
}

/// The email a userinfo response names, trimmed, when present and not
/// blank.
pub open spec fn userinfo_email_spec(body: Seq<char>) -> Option<Seq<char>> {
    match json::str_field(json::json_parse_text(body), "email"@) {
        Some(e) => if text::trim_spec(e).len() != 0 {
            Some(text::trim_spec(e))
        } else {
            None
        },
        None => None,
    }
}

/// Reads the email of a userinfo response. A missing email is an error:
/// no placeholder identity ever enters the library.
pub fn userinfo_email(body: &str) -> (r: Result<String, String>)
    ensures
        match r {
            Ok(e) => userinfo_email_spec(body@) == Some(e@),
            Err(m) => userinfo_email_spec(body@) is None && m@ == (if json::json_parse_text(body@) is None {
                "解析用户信息失败"@
            } else {
                "userinfo 未返回 email，无法确定账号身份"@
            }),
        },
{
    let v = match json::parse_json(body) {
        Ok(v) => v,
        Err(_) => return Err(text::to_owned("解析用户信息失败")),
    };
    match str_at(&v, "email") {
        Some(e) => {
            let t = text::trim(e.as_str());
            if t.as_str().is_empty() {
                Err(text::to_owned("userinfo 未返回 email，无法确定账号身份"))
            } else {
                Ok(t)
            }
        },
        None => Err(text::to_owned("userinfo 未返回 email，无法确定账号身份")),
    }
}

/// The expiry recorded for a new login: the access token's own `exp` when
/// non-negative, else now plus `expires_in` (saturating), else one hour.
pub open spec fn login_expiry(access_token: Seq<char>, expires_in: Option<u64>, now: u64) -> u64 {
    match jwt::exp_of(access_token) {
        Some(exp) if exp >= 0 => exp as u64,
        _ => match expires_in {
            Some(e) => if now + e > u64::MAX {
                u64::MAX
            } else {
                (now + e) as u64
            },
            None => if now + 3600 > u64::MAX {
                u64::MAX
            } else {
                (now + 3600) as u64
            },
        },
    }
}

/// `r` is the account a completed login makes under the id `id`.
pub open spec fn logged_in(token: TokenResponse, email: String, now: u64, id: String, r: Account) -> bool {
    &&& r.id == id
    &&& r.email == email
    &&& r.access_token == token.access_token
    &&& r.refresh_token@ == match token.refresh_token {
        Some(t) => t@,
        None => Seq::empty(),
    }
    &&& r.id_token@ == match token.id_token {
        Some(t) => t@,
        None => Seq::empty(),
    }
    &&& r.expires_at == login_expiry(token.access_token@, token.expires_in, now)
    &&& !r.stale
    &&& opt_view(r.account_id) == account::account_id_of(token.access_token@)
    &&& opt_view(r.organization_id) == account::org_id_of(token.access_token@)
}

/// The account a completed login makes.
pub fn login_account(token: TokenResponse, email: String, now: u64, id: String) -> (r: Account)
    ensures
        logged_in(token, email, now, id, r),
{
    let expires_at = match jwt::jwt_exp(token.access_token.as_str()) {
        Some(exp) if exp >= 0 => exp as u64,
        _ => match token.expires_in {
            Some(e) => now.saturating_add(e),
            None => now.saturating_add(3600),
        },
    };
    let account_id = account::extract_chatgpt_account_id(token.access_token.as_str());
    let organization_id = account::extract_chatgpt_org_id(token.access_token.as_str());
    Account {
        id,
        email,
        access_token: token.access_token,
        refresh_token: match token.refresh_token {
            Some(t) => t,
            None => String::new(),
        },
        id_token: match token.id_token {
            Some(t) => t,
            None => String::new(),
        },
        expires_at,
        stale: false,
        account_id,
        organization_id,
    }
}

/// The account a completed login makes, under a fresh random id.
pub fn new_login_account(token: TokenResponse, email: String, now: u64) -> (r: Account)
    ensures
        r.id@.len() == 36,
        logged_in(token, email, now, r.id, r),
{
    let id = account::new_account_id();
    login_account(token, email, now, id)
}

/// The message of a failed token-endpoint request: context, status, error
/// code and body length, never the body.
pub open spec fn http_error_message_spec(ctx: Seq<char>, status: u16, body: Seq<char>, body_len: usize) -> Seq<char> {
    ctx + " 失败: HTTP "@ + text::dec(status as int) + match token_error_code(body) {
        Some(c) => ", error_code="@ + c,
        None => Seq::empty(),
    } + ", body_len="@ + text::dec(body_len as int)
}

pub fn http_error_message(ctx: &str, status: u16, body: &str) -> (r: String)
    ensures
        r@ == http_error_message_spec(ctx@, status, body@, body.spec_bytes().len() as usize),
{
    let mut s = text::cat(ctx, " 失败: HTTP ");
    text::push_str(&mut s, text::fmt_u64(status as u64).as_str());
    match extract_token_error_code(body) {
        Some(c) => {
            text::push_str(&mut s, ", error_code=");
            text::push_str(&mut s, c.as_str());
        },
        None => {},
    }
    text::push_str(&mut s, ", body_len=");
    text::push_str(&mut s, text::fmt_u64(body.len() as u64).as_str());
    s
}

/// The error of a refresh that the token endpoint rejected.
pub fn rejected_refresh(status: u16, body: &str) -> (r: RefreshError)
    ensures
        r matches RefreshError::AuthRejected { status: s, code, body_len } && s == status
            && opt_view(code) == token_error_code(body@) && body_len == body.spec_bytes().len() as usize,
{
    RefreshError::AuthRejected { status, code: extract_token_error_code(body), body_len: body.len() }
}

/// How a login asks the user: where to show the authorization URL, and
/// how to ask for a pasted callback URL when the browser's does not come.
pub trait LoginHooks {
    fn show_auth_url(&self, url: &str);

    fn prompt_callback(&self, state: &str) -> Option<String>;
}

/// What a pasted callback line gives.
#[derive(Debug)]
pub enum ManualCallback {
    /// The authorization code.
    Code(String),
    /// Nothing was pasted.
    Abandoned,
    /// The paste was refused, with the message to show.
    Invalid(String),
}

/// Reads a pasted callback line: nothing (or only blanks) abandons the
/// login; otherwise the URL must be this login's callback.
pub fn manual_callback(line: Option<String>, expected_state: &str) -> (r: ManualCallback)
    ensures
        match line {
            None => r is Abandoned,
            Some(l) => if text::trim_spec(l@).len() == 0 {
                r is Abandoned
            } else {
                match callback_result(text::trim_spec(l@), expected_state@) {
                    Ok(c) => r matches ManualCallback::Code(code) && code@ == c,
                    Err(m) => r matches ManualCallback::Invalid(msg) && msg@ == "回调解析失败: "@ + m,
                }
            },
        },
{
    let l = match line {
        Some(l) => l,
        None => return ManualCallback::Abandoned,
    };
    let t = text::trim(l.as_str());
    if t.as_str().is_empty() {
        return ManualCallback::Abandoned;
    }
    match parse_code_from_callback_url(t.as_str(), expected_state) {
        Ok(code) => ManualCallback::Code(code),
        Err(e) => ManualCallback::Invalid(text::cat("回调解析失败: ", e.as_str())),
    }
}

/// The account a login makes carries the login's own credentials: its
/// access token, its refresh token and its id token (empty when the
/// response had none), under the given id and email, not stale.
pub proof fn law_login_keeps_the_response_tokens(
    token: TokenResponse,
    email: String,
    now: u64,
    id: String,
    r: Account,
)
    requires
        logged_in(token, email, now, id, r),
    ensures
        r.id == id,
        r.email == email,
        r.access_token == token.access_token,
        forall|t: String| token.refresh_token == Some(t) ==> r.refresh_token@ == t@,
        token.refresh_token is None ==> r.refresh_token@.len() == 0,
        forall|t: String| token.id_token == Some(t) ==> r.id_token@ == t@,
        token.id_token is None ==> r.id_token@.len() == 0,
        !r.stale,
{
}

/// A login's account expires at the access token's own `exp` when it has a
/// non-negative one; otherwise `expires_in` seconds after the login, or an
/// hour after it without one (never past `u64::MAX`).
pub proof fn law_login_expiry(token: TokenResponse, email: String, now: u64, id: String, r: Account)
    requires
        logged_in(token, email, now, id, r),
    ensures
        jwt::exp_of(token.access_token@) is Some && jwt::exp_of(token.access_token@)->0 >= 0 ==> r.expires_at
            == jwt::exp_of(token.access_token@)->0,
        !(jwt::exp_of(token.access_token@) is Some && jwt::exp_of(token.access_token@)->0 >= 0)
            && token.expires_in is Some && now + token.expires_in->0 <= u64::MAX ==> r.expires_at == now
            + token.expires_in->0,
        !(jwt::exp_of(token.access_token@) is Some && jwt::exp_of(token.access_token@)->0 >= 0)
            && token.expires_in is None && now + 3600 <= u64::MAX ==> r.expires_at == now + 3600,
        r.expires_at >= now || (jwt::exp_of(token.access_token@) is Some && jwt::exp_of(token.access_token@)->0
            >= 0),
{
}

} // verus!
