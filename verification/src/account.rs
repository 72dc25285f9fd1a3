//! The account library: accounts and their identity, and every change that
//! the library makes to it (harvest, login, re-login, removal, switch and
//! refresh bookkeeping). Reading and writing the files is the caller's.

use crate::calendar;
use crate::json;
use crate::jwt;
use crate::oauth::{RefreshError, TokenResponse};
use crate::token_health::{self, RefreshFailureAction, TokenHealth};
use crate::text;
use vstd::prelude::*;

verus! {

/// One stored account with its credentials.
#[derive(Debug)]
pub struct Account {
    pub id: String,
    pub email: String,
    pub access_token: String,
    pub refresh_token: String,
    pub id_token: String,
    pub expires_at: u64,
    /// The refresh token was rejected; a new login is required.
    pub stale: bool,
    /// Distinguishes several accounts and organisations of one email.
    pub account_id: Option<String>,
    pub organization_id: Option<String>,
}

/// The account library file.
#[derive(Debug)]
pub struct AccountsFile {
    pub accounts: Vec<Account>,
    pub current_account_id: Option<String>,
}

/// The view of an optional string.
pub open spec fn opt_view(s: Option<String>) -> Option<Seq<char>> {
    match s {
        Some(x) => Some(x@),
        None => None,
    }
}

/// A copy of an optional string.
pub fn copy_opt(s: &Option<String>) -> (r: Option<String>)
    ensures
        r == *s,
{
    match s {
        Some(x) => Some(x.clone()),
        None => None,
    }
}

impl Account {
    /// A field-by-field copy.
    pub fn copy(&self) -> (r: Account)
        ensures
            r == *self,
    {
        Account {
            id: self.id.clone(),
            email: self.email.clone(),
            access_token: self.access_token.clone(),
            refresh_token: self.refresh_token.clone(),
            id_token: self.id_token.clone(),
            expires_at: self.expires_at,
            stale: self.stale,
            account_id: copy_opt(&self.account_id),
            organization_id: copy_opt(&self.organization_id),
        }
    }
}

/// A copy of a list of accounts.
pub fn copy_accounts(v: &Vec<Account>) -> (r: Vec<Account>)
    ensures
        r@ == v@,
{
    let mut out: Vec<Account> = Vec::new();
    let mut i: usize = 0;
    while i < v.len()
        invariant
            i <= v.len(),
            out@ == v@.subrange(0, i as int),
        decreases v.len() - i,
    {
        out.push(v[i].copy());
        i = i + 1;
        assert(out@ =~= v@.subrange(0, i as int));
    }
    assert(v@.subrange(0, v@.len() as int) =~= v@);
    out
}

impl AccountsFile {
    /// A copy of the whole file.
    pub fn copy(&self) -> (r: AccountsFile)
        ensures
            r.accounts@ == self.accounts@,
            r.current_account_id == self.current_account_id,
    {
        AccountsFile {
            accounts: copy_accounts(&self.accounts),
            current_account_id: copy_opt(&self.current_account_id),
        }
    }

    /// Whether the library's current account is `id`.
    pub open spec fn is_current(self, id: Seq<char>) -> bool {
        opt_view(self.current_account_id) == Some(id)
    }
}

/// The normal form of an email, the identity key of an account: trimmed and
/// lower-cased.
pub open spec fn normalized(email: Seq<char>) -> Seq<char> {
    text::unicode_lowercase(text::trim_spec(email))
}

/// Normalises an email so that case and surrounding blanks never split one
/// account in two.
pub fn normalize_email(email: &str) -> (r: String)
    ensures
        r@ == normalized(email@),
{
    let t = text::trim(email);
    text::to_lowercase(t.as_str())
}

/// Two optional identifiers conflict only when both are present and, once
/// trimmed, non-empty and different.
pub open spec fn ids_compatible(a: Option<Seq<char>>, b: Option<Seq<char>>) -> bool {
    match (a, b) {
        (Some(x), Some(y)) => {
            let (x, y) = (text::trim_spec(x), text::trim_spec(y));
            !(x.len() != 0 && y.len() != 0 && x != y)
        },
        _ => true,
    }
}

pub fn ids_compatible_exec(a: &Option<String>, b: &Option<String>) -> (r: bool)
    ensures
        r == ids_compatible(opt_view(*a), opt_view(*b)),
{
    match (a, b) {
        (Some(x), Some(y)) => {
            let x = text::trim(x.as_str());
            let y = text::trim(y.as_str());
            !(!x.as_str().is_empty() && !y.as_str().is_empty() && !text::str_eq(
                x.as_str(),
                y.as_str(),
            ))
        },
        _ => true,
    }
}

/// An account is the identity (normalised email, account id, organisation
/// id) when the emails agree and neither identifier conflicts; an old
/// library without identifiers falls back to the email alone.
pub open spec fn same_identity(
    a: Account,
    email: Seq<char>,
    account_id: Option<Seq<char>>,
    organization_id: Option<Seq<char>>,
) -> bool {
    &&& normalized(a.email@) == email
    &&& ids_compatible(opt_view(a.account_id), account_id)
    &&& ids_compatible(opt_view(a.organization_id), organization_id)
}

/// Index of the first account of the identity.
pub fn find_identity(
    accounts: &Vec<Account>,
    email: &str,
    account_id: &Option<String>,
    organization_id: &Option<String>,
) -> (r: Option<usize>)
    ensures
        match r {
            Some(i) => i < accounts.len() && same_identity(
                accounts@[i as int],
                email@,
                opt_view(*account_id),
                opt_view(*organization_id),
            ) && forall|j: int|
                0 <= j < i ==> !same_identity(
                    #[trigger] accounts@[j],
                    email@,
                    opt_view(*account_id),
                    opt_view(*organization_id),
                ),
            None => forall|j: int|
                0 <= j < accounts.len() ==> !same_identity(
                    #[trigger] accounts@[j],
                    email@,
                    opt_view(*account_id),
                    opt_view(*organization_id),
                ),
        },
{
    let mut i: usize = 0;
    while i < accounts.len()
        invariant
            i <= accounts.len(),
            forall|j: int|
                0 <= j < i ==> !same_identity(
                    #[trigger] accounts@[j],
                    email@,
                    opt_view(*account_id),
                    opt_view(*organization_id),
                ),
        decreases accounts.len() - i,
    {
        let a = &accounts[i];
        let e = normalize_email(a.email.as_str());
        if text::str_eq(e.as_str(), email) && ids_compatible_exec(&a.account_id, account_id)
            && ids_compatible_exec(&a.organization_id, organization_id) {
            return Some(i);
        }
        i = i + 1;
    }
    None
}

/// Index of the first account with the given id.
pub open spec fn first_with_id(accounts: Seq<Account>, id: Seq<char>, i: int) -> bool {
    0 <= i < accounts.len() && accounts[i].id@ == id && forall|j: int|
        0 <= j < i ==> (#[trigger] accounts[j]).id@ != id
}

/// Whether any account has the given id.
pub open spec fn has_id(accounts: Seq<Account>, id: Seq<char>) -> bool {
    exists|j: int| 0 <= j < accounts.len() && (#[trigger] accounts[j]).id@ == id
}

/// Index of the first account with the given id.
pub fn find_by_id(accounts: &Vec<Account>, id: &str) -> (r: Option<usize>)
    ensures
        match r {
            Some(i) => first_with_id(accounts@, id@, i as int),
            None => !has_id(accounts@, id@),
        },
{
    let mut i: usize = 0;
    while i < accounts.len()
        invariant
            i <= accounts.len(),
            forall|j: int| 0 <= j < i ==> (#[trigger] accounts@[j]).id@ != id@,
        decreases accounts.len() - i,
    {
        if text::str_eq(accounts[i].id.as_str(), id) {
            return Some(i);
        }
        i = i + 1;
    }
    None
}

/// Kinds of account errors, so that callers map them without parsing
/// messages.
#[derive(Debug, Clone, Copy, PartialEq, Eq, Structural)]
pub enum AccountErrorKind {
    /// The library's state forbids the request (unknown, in use).
    State,
    /// Credentials are rejected or unusable; a login is needed.
    Auth,
    /// An outside service failed.
    External,
    /// Local storage failed.
    Internal,
}

/// An account operation's error: its kind and a message for people.
#[derive(Debug)]
pub struct AccountError {
    pub kind: AccountErrorKind,
    pub message: String,
}

impl AccountError {
    pub fn new(kind: AccountErrorKind, message: String) -> (r: AccountError)
        ensures
            r.kind == kind,
            r.message == message,
    {
        AccountError { kind, message }
    }

    pub fn kind(&self) -> (r: AccountErrorKind)
        ensures
            r == self.kind,
    {
        self.kind
    }

    /// The message, as `Display` would write it.
    pub fn to_message(&self) -> (r: String)
        ensures
            r == self.message,
    {
        self.message.clone()
    }
}

/// The error for an unknown account id.
pub fn not_found(id: &str) -> (r: AccountError)
    ensures
        r.kind == AccountErrorKind::State,
        r.message@ == "账号未找到: "@ + id@,
{
    AccountError::new(AccountErrorKind::State, text::cat("账号未找到: ", id))
}

/// The library after removing the account at `i`.
pub open spec fn without(file: AccountsFile, i: int) -> Seq<Account> {
    file.accounts@.remove(i)
}

/// Removes an account. The account in use cannot be removed: the official
/// credentials would keep pointing at an account nothing manages any more.
/// On success the result is always `false`.
pub fn delete_account(file: &mut AccountsFile, account_id: &str) -> (r: Result<bool, AccountError>)
    ensures
        match r {
            Ok(b) => {
                &&& !b
                &&& exists|i: int|
                    first_with_id(old(file).accounts@, account_id@, i)
                        && final(file).accounts@ == old(file).accounts@.remove(i)
                &&& !old(file).is_current(account_id@)
                &&& final(file).current_account_id == old(file).current_account_id
            },
            Err(e) => {
                &&& e.kind == AccountErrorKind::State
                &&& *final(file) == *old(file)
                &&& !has_id(old(file).accounts@, account_id@) || old(file).is_current(
                    account_id@,
                )
            },
        },
{
    let idx = match find_by_id(&file.accounts, account_id) {
        Some(i) => i,
        None => return Err(not_found(account_id)),
    };
    let in_use = match &file.current_account_id {
        Some(c) => text::str_eq(c.as_str(), account_id),
        None => false,
    };
    if in_use {
        let mut msg = text::cat("账号 ", file.accounts[idx].email.as_str());
        text::push_str(&mut msg, " 正在使用中，无法删除；请先切换到其他账号（登录新号或切到已有账号）");
        return Err(AccountError::new(AccountErrorKind::State, msg));
    }
    file.accounts.remove(idx);
    Ok(false)
}


/// The JSON member under which OpenAI puts its account claims.
pub open spec fn auth_key() -> Seq<char> {
    "https://api.openai.com/auth"@
}

/// The trimmed string member `key` of `auth`, if present and non-blank.
pub open spec fn auth_str(auth: Option<json::JsonDoc>, key: Seq<char>) -> Option<Seq<char>> {
    match json::str_field(auth, key) {
        Some(s) => if text::trim_spec(s).len() != 0 {
            Some(text::trim_spec(s))
        } else {
            None
        },
        None => None,
    }
}

/// `a` if present, else `b`.
pub open spec fn or_else<T>(a: Option<T>, b: Option<T>) -> Option<T> {
    match a {
        Some(x) => Some(x),
        None => b,
    }
}

/// The auth claims object of a token read strictly.
pub open spec fn auth_claims(token: Seq<char>) -> Option<json::JsonDoc> {
    json::field_of(jwt::strict_claims_of(token), auth_key())
}

/// The ChatGPT account id of an access token.
pub open spec fn account_id_of(access_token: Seq<char>) -> Option<Seq<char>> {
    let auth = auth_claims(access_token);
    or_else(auth_str(auth, "chatgpt_account_id"@), auth_str(auth, "account_id"@))
}

/// The organisation named by the auth claims' keys, in their order.
pub open spec fn org_by_keys(auth: Option<json::JsonDoc>) -> Option<Seq<char>> {
    or_else(
        auth_str(auth, "organization_id"@),
        or_else(
            auth_str(auth, "chatgpt_organization_id"@),
            or_else(
                auth_str(auth, "chatgpt_org_id"@),
                or_else(
                    auth_str(auth, "org_id"@),
                    or_else(auth_str(auth, "poid"@), auth_str(auth, "POID"@)),
                ),
            ),
        ),
    )
}

/// Index of the first organisation marked `is_default: true`.
pub open spec fn default_org_index(orgs: Seq<json::JsonDoc>) -> int
    decreases orgs.len(),
{
    if orgs.len() == 0 {
        0
    } else if json::field(orgs[0], "is_default"@) matches Some(b) && json::as_bool_of(b)
        == Some(true) {
        0
    } else {
        1 + default_org_index(orgs.drop_first())
    }
}

proof fn lemma_default_org_index(orgs: Seq<json::JsonDoc>)
    ensures
        0 <= default_org_index(orgs) <= orgs.len(),
    decreases orgs.len(),
{
    if orgs.len() > 0 {
        lemma_default_org_index(orgs.drop_first());
    }
}

/// The organisation chosen from the `organizations` list: the first
/// default one, else the first one.
pub open spec fn org_from_list(auth: Option<json::JsonDoc>) -> Option<Seq<char>> {
    match json::field_of(auth, "organizations"@) {
        Some(json::JsonDoc::Arr(orgs)) => {
            let i = default_org_index(orgs);
            let chosen = if i < orgs.len() {
                Some(orgs[i])
            } else if orgs.len() > 0 {
                Some(orgs[0])
            } else {
                None
            };
            match chosen {
                Some(o) => match json::str_field(Some(o), "id"@) {
                    Some(s) => if text::trim_spec(s).len() != 0 {
                        Some(text::trim_spec(s))
                    } else {
                        None
                    },
                    None => None,
                },
                None => None,
            }
        },
        _ => None,
    }
}

/// The organisation id of an access token.
pub open spec fn org_id_of(access_token: Seq<char>) -> Option<Seq<char>> {
    let auth = auth_claims(access_token);
    or_else(org_by_keys(auth), org_from_list(auth))
}

/// The organisation id of an id token: the first present of its keys, if a
/// non-blank string.
pub open spec fn org_of_id_token(id_token: Seq<char>) -> Option<Seq<char>> {
    let auth = auth_claims(id_token);
    let present = or_else(
        json::field_of(auth, "organization_id"@),
        or_else(json::field_of(auth, "chatgpt_organization_id"@), json::field_of(auth, "org_id"@)),
    );
    match present {
        Some(d) => match json::as_str_of(d) {
            Some(s) => if text::trim_spec(s).len() != 0 {
                Some(text::trim_spec(s))
            } else {
                None
            },
            None => None,
        },
        None => None,
    }
}

fn auth_claims_exec(token: &str) -> (r: Option<serde_json::Value>)
    ensures
        match r {
            Some(v) => auth_claims(token@) == Some(json::json_view(v)),
            None => auth_claims(token@) is None,
        },
{
    let claims = match jwt::strict_claims(token) {
        Some(c) => c,
        None => return None,
    };
    match json::get(&claims, "https://api.openai.com/auth") {
        Some(a) => Some(json_clone(a)),
        None => None,
    }
}

/// serde_json's `Value::clone`: the copy holds the same document.
#[verifier::external_body]
fn json_clone(v: &serde_json::Value) -> (r: serde_json::Value)
    ensures
        json::json_view(r) == json::json_view(*v),
{
    v.clone()
}

fn trimmed_nonblank(s: &str) -> (r: Option<String>)
    ensures
        match r {
            Some(x) => text::trim_spec(s@).len() != 0 && x@ == text::trim_spec(s@),
            None => text::trim_spec(s@).len() == 0,
        },
{
    let t = text::trim(s);
    if t.as_str().is_empty() {
        None
    } else {
        Some(t)
    }
}

fn auth_str_exec(auth: &Option<serde_json::Value>, key: &str) -> (r: Option<String>)
    ensures
        opt_view(r) == auth_str(
            match auth {
                Some(v) => Some(json::json_view(*v)),
                None => None,
            },
            key@,
        ),
{
    let a = match auth {
        Some(a) => a,
        None => return None,
    };
    match json::get(a, key) {
        Some(v) => match json::as_str(v) {
            Some(s) => trimmed_nonblank(s),
            None => None,
        },
        None => None,
    }
}

/// Extracts `chatgpt_account_id` (or `account_id`) from an access token.
pub fn extract_chatgpt_account_id(access_token: &str) -> (r: Option<String>)
    ensures
        opt_view(r) == account_id_of(access_token@),
{
    let auth = auth_claims_exec(access_token);
    match auth_str_exec(&auth, "chatgpt_account_id") {
        Some(s) => Some(s),
        None => auth_str_exec(&auth, "account_id"),
    }
}

/// Extracts the organisation id from an access token: the first non-blank
/// of its organisation keys, else the default (or first) organisation.
pub fn extract_chatgpt_org_id(access_token: &str) -> (r: Option<String>)
    ensures
        opt_view(r) == org_id_of(access_token@),
{
    let auth = auth_claims_exec(access_token);
    if let Some(s) = auth_str_exec(&auth, "organization_id") {
        return Some(s);
    }
    if let Some(s) = auth_str_exec(&auth, "chatgpt_organization_id") {
        return Some(s);
    }
    if let Some(s) = auth_str_exec(&auth, "chatgpt_org_id") {
        return Some(s);
    }
    if let Some(s) = auth_str_exec(&auth, "org_id") {
        return Some(s);
    }
    if let Some(s) = auth_str_exec(&auth, "poid") {
        return Some(s);
    }
    if let Some(s) = auth_str_exec(&auth, "POID") {
        return Some(s);
    }
    let a = match &auth {
        Some(a) => a,
        None => return None,
    };
    let orgs_v = match json::get(a, "organizations") {
        Some(o) => o,
        None => return None,
    };
    let orgs = match json::as_array(orgs_v) {
        Some(o) => o,
        None => return None,
    };
    let ghost docs = orgs@.map_values(|x: serde_json::Value| json::json_view(x));
    let mut i: usize = 0;
    assert(docs.subrange(0, docs.len() as int) =~= docs);
    while i < orgs.len()
        invariant
            i <= orgs.len(),
            docs == orgs@.map_values(|x: serde_json::Value| json::json_view(x)),
            default_org_index(docs) == i + default_org_index(docs.subrange(i as int, docs.len() as int)),
        ensures
            i <= orgs.len(),
            default_org_index(docs) == i,
        decreases orgs.len() - i,
    {
        let is_default = match json::get(&orgs[i], "is_default") {
            Some(b) => match json::as_bool(b) {
                Some(x) => x,
                None => false,
            },
            None => false,
        };
        assert(docs.subrange(i as int, docs.len() as int)[0] == docs[i as int]);
        if is_default {
            assert(default_org_index(docs.subrange(i as int, docs.len() as int)) == 0);
            break;
        }
        assert(docs.subrange(i as int, docs.len() as int).drop_first() =~= docs.subrange(
            i + 1,
            docs.len() as int,
        ));
        i = i + 1;
    }
    let chosen = if i < orgs.len() {
        &orgs[i]
    } else if orgs.len() > 0 {
        &orgs[0]
    } else {
        return None;
    };
    match json::get(chosen, "id") {
        Some(v) => match json::as_str(v) {
            Some(s) => trimmed_nonblank(s),
            None => None,
        },
        None => None,
    }
}

/// Extracts the organisation id from an id token.
pub fn extract_org_from_id_token(id_token: &str) -> (r: Option<String>)
    ensures
        opt_view(r) == org_of_id_token(id_token@),
{
    let auth = match auth_claims_exec(id_token) {
        Some(a) => a,
        None => return None,
    };
    let present = match json::get(&auth, "organization_id") {
        Some(v) => Some(v),
        None => match json::get(&auth, "chatgpt_organization_id") {
            Some(v) => Some(v),
            None => json::get(&auth, "org_id"),
        },
    };
    match present {
        Some(v) => match json::as_str(v) {
            Some(s) => trimmed_nonblank(s),
            None => None,
        },
        None => None,
    }
}


/// Seconds before expiry at which a token counts as expiring.
pub const REFRESH_SKEW_SECS: u64 = 300;

/// Validity granted to credentials adopted from the official file, which
/// carries no expiry of its own.
pub const HARVEST_VALIDITY_SECS: u64 = 3600;

/// The raw `email` claim of a payload segment.
pub open spec fn email_claim(payload_b64: Seq<char>) -> Option<Seq<char>> {
    json::str_field(jwt::payload_claims(payload_b64, true), "email"@)
}

/// Reads the `email` claim of a JWT payload segment (base64url JSON).
pub fn decode_jwt_email(payload_b64: &str) -> (r: Option<String>)
    ensures
        opt_view(r) == email_claim(payload_b64@),
{
    let v = match jwt::decode_payload(payload_b64, true) {
        Some(v) => v,
        None => return None,
    };
    match json::get(&v, "email") {
        Some(e) => match json::as_str(e) {
            Some(s) => Some(text::to_owned(s)),
            None => None,
        },
        None => None,
    }
}

/// The normalised email of an id token, when it has a non-blank one.
pub open spec fn id_token_email(id_token: Seq<char>) -> Option<Seq<char>> {
    match jwt::second_segment(id_token) {
        Some(seg) => match email_claim(seg) {
            Some(e) => if text::trim_spec(e).len() != 0 {
                Some(normalized(e))
            } else {
                None
            },
            None => None,
        },
        None => None,
    }
}

/// The normalised email of an OIDC id token: the identity source of login
/// and harvest, with no network call.
pub fn email_from_id_token(id_token: &str) -> (r: Option<String>)
    ensures
        opt_view(r) == id_token_email(id_token@),
{
    let seg = match jwt::second_segment_of(id_token) {
        Some(s) => s,
        None => return None,
    };
    let e = match decode_jwt_email(seg.as_str()) {
        Some(e) => e,
        None => return None,
    };
    if text::trim(e.as_str()).as_str().is_empty() {
        None
    } else {
        Some(normalize_email(e.as_str()))
    }
}

/// The `exp` claim of a trimmed token read strictly.
pub open spec fn strict_exp_of(token: Seq<char>) -> Option<i64> {
    json::i64_field(jwt::strict_claims_of(text::trim_spec(token)), "exp"@)
}

/// The `exp` claim (seconds) of a JWT; `None` when unknown.
pub fn jwt_exp(token: &str) -> (r: Option<i64>)
    ensures
        r == strict_exp_of(token@),
{
    let t = text::trim(token);
    let v = match jwt::strict_claims(t.as_str()) {
        Some(v) => v,
        None => return None,
    };
    match json::get(&v, "exp") {
        Some(e) => json::as_i64(e),
        None => None,
    }
}

/// A JWT is expired or inside the skew window at `now`; one without a
/// readable `exp` counts as expired.
pub open spec fn expired_soon(token: Seq<char>, now: u64) -> bool {
    match strict_exp_of(token) {
        Some(exp) => exp < now + REFRESH_SKEW_SECS,
        None => true,
    }
}

/// Whether a JWT is expired or inside the skew window at `now`.
pub fn is_jwt_expired_soon_at(token: &str, now: u64) -> (r: bool)
    ensures
        r == expired_soon(token@, now),
{
    match jwt_exp(token) {
        Some(exp) => if now > 9_223_372_036_854_775_507u64 {
            true
        } else {
            exp < (now + REFRESH_SKEW_SECS) as i64
        },
        None => true,
    }
}

/// Whether a JWT is expired or inside the skew window now.
pub fn is_jwt_expired_soon(token: &str) -> (r: bool)
    ensures
        exists|now: u64| r == #[trigger] expired_soon(token@, now),
        strict_exp_of(token@) is None ==> r,
{
    let now = crate::quota_cache::now_secs();
    is_jwt_expired_soon_at(token, now)
}

/// The id token a refresh returned, when it should replace `current`:
/// present, non-blank, not expiring, and different from the current one.
pub open spec fn fresh_id_token(new_id: Option<Seq<char>>, current: Seq<char>, now: u64) -> Option<
    Seq<char>,
> {
    match new_id {
        Some(n) => {
            let t = text::trim_spec(n);
            if t.len() == 0 || expired_soon(t, now) || t == text::trim_spec(current) {
                None
            } else {
                Some(t)
            }
        },
        None => None,
    }
}

/// Checks a refreshed id token at `now`: an expiring one is dropped and
/// the old one kept.
pub fn pick_fresh_id_token_at(new_id: Option<String>, current_id: &str, now: u64) -> (r: Option<
    String,
>)
    ensures
        opt_view(r) == fresh_id_token(opt_view(new_id), current_id@, now),
{
    let n = match new_id {
        Some(n) => n,
        None => return None,
    };
    let t = text::trim(n.as_str());
    if t.as_str().is_empty() {
        return None;
    }
    if is_jwt_expired_soon_at(t.as_str(), now) {
        return None;
    }
    let c = text::trim(current_id);
    if text::str_eq(t.as_str(), c.as_str()) {
        return None;
    }
    Some(t)
}

/// Checks a refreshed id token now.
pub fn pick_fresh_id_token(new_id: Option<String>, current_id: &str) -> (r: Option<String>)
    ensures
        exists|now: u64| opt_view(r) == #[trigger] fresh_id_token(opt_view(new_id), current_id@, now),
{
    let now = crate::quota_cache::now_secs();
    pick_fresh_id_token_at(new_id, current_id, now)
}

/// The account after a login's credentials replace its own: tokens and
/// expiry from the login, stale cleared, identifiers kept unless the login
/// brought new ones.
pub open spec fn with_login(old: Account, fresh: Account) -> Account {
    Account {
        id: old.id,
        email: old.email,
        access_token: fresh.access_token,
        refresh_token: fresh.refresh_token,
        id_token: fresh.id_token,
        expires_at: fresh.expires_at,
        stale: false,
        account_id: if fresh.account_id is Some {
            fresh.account_id
        } else {
            old.account_id
        },
        organization_id: if fresh.organization_id is Some {
            fresh.organization_id
        } else {
            old.organization_id
        },
    }
}

/// The first account of an identity is at `i`.
pub open spec fn first_identity(
    accounts: Seq<Account>,
    email: Seq<char>,
    account_id: Option<Seq<char>>,
    organization_id: Option<Seq<char>>,
    i: int,
) -> bool {
    0 <= i < accounts.len() && same_identity(accounts[i], email, account_id, organization_id)
        && forall|j: int|
        0 <= j < i ==> !same_identity(#[trigger] accounts[j], email, account_id, organization_id)
}

/// No account has the identity.
pub open spec fn no_identity(
    accounts: Seq<Account>,
    email: Seq<char>,
    account_id: Option<Seq<char>>,
    organization_id: Option<Seq<char>>,
) -> bool {
    forall|j: int|
        0 <= j < accounts.len() ==> !same_identity(
            #[trigger] accounts[j],
            email,
            account_id,
            organization_id,
        )
}

fn merge_login(old: &Account, fresh: &Account) -> (r: Account)
    ensures
        r == with_login(*old, *fresh),
{
    Account {
        id: old.id.clone(),
        email: old.email.clone(),
        access_token: fresh.access_token.clone(),
        refresh_token: fresh.refresh_token.clone(),
        id_token: fresh.id_token.clone(),
        expires_at: fresh.expires_at,
        stale: false,
        account_id: if fresh.account_id.is_some() {
            copy_opt(&fresh.account_id)
        } else {
            copy_opt(&old.account_id)
        },
        organization_id: if fresh.organization_id.is_some() {
            copy_opt(&fresh.organization_id)
        } else {
            copy_opt(&old.organization_id)
        },
    }
}

/// The library `new` is `old` after taking in the login `account`: the
/// current account is unchanged; the first account of the login's identity
/// gets its credentials in place, or, with none, the login is appended.
pub open spec fn upserted(old: AccountsFile, account: Account, new: AccountsFile) -> bool {
    &&& new.current_account_id == old.current_account_id
    &&& (exists|i: int|
        first_identity(
            old.accounts@,
            account.email@,
            opt_view(account.account_id),
            opt_view(account.organization_id),
            i,
        ) && new.accounts@ == old.accounts@.update(i, with_login(old.accounts@[i], account)))
        || (no_identity(
        old.accounts@,
        account.email@,
        opt_view(account.account_id),
        opt_view(account.organization_id),
    ) && new.accounts@ == old.accounts@.push(account))
}

/// Logging in again as an identity that a login has just brought in adds no
/// account: the second login finds the first one's entry and updates it.
/// (The login's email is in normal form, as logins give it.)
pub proof fn law_relogin_adds_no_account(
    f0: AccountsFile,
    a: Account,
    f1: AccountsFile,
    b: Account,
    f2: AccountsFile,
)
    requires
        upserted(f0, a, f1),
        upserted(f1, b, f2),
        normalized(a.email@) == a.email@,
        b.email@ == a.email@,
        opt_view(b.account_id) == opt_view(a.account_id),
        opt_view(b.organization_id) == opt_view(a.organization_id),
    ensures
        f1.accounts@.len() <= f0.accounts@.len() + 1,
        f2.accounts@.len() == f1.accounts@.len(),
        f2.current_account_id == f0.current_account_id,
{
    let email = a.email@;
    let aid = opt_view(a.account_id);
    let oid = opt_view(a.organization_id);
    let k: int = if exists|i: int|
        first_identity(f0.accounts@, email, aid, oid, i) && f1.accounts@ == f0.accounts@.update(
            i,
            with_login(f0.accounts@[i], a),
        ) {
        choose|i: int|
            first_identity(f0.accounts@, email, aid, oid, i) && f1.accounts@
                == f0.accounts@.update(i, with_login(f0.accounts@[i], a))
    } else {
        f0.accounts@.len() as int
    };
    assert(0 <= k < f1.accounts@.len());
    assert(same_identity(f1.accounts@[k], email, aid, oid));
    if no_identity(f1.accounts@, email, aid, oid) {
        assert(!same_identity(f1.accounts@[k], email, aid, oid));
    }
}

/// Logging in again replaces the credentials of the account it finds: the
/// updated account has the login's access, refresh and id tokens, is no
/// longer stale, and keeps its own id and email.
pub proof fn law_relogin_takes_the_login_credentials(old: Account, fresh: Account)
    ensures
        with_login(old, fresh).access_token == fresh.access_token,
        with_login(old, fresh).refresh_token == fresh.refresh_token,
        with_login(old, fresh).id_token == fresh.id_token,
        !with_login(old, fresh).stale,
        with_login(old, fresh).id == old.id,
        with_login(old, fresh).email == old.email,
{
}

/// After a login is taken in, the library holds an account with the
/// login's credentials, not stale (a login is never stale itself).
pub proof fn law_login_credentials_are_in_the_library(f0: AccountsFile, a: Account, f1: AccountsFile)
    requires
        upserted(f0, a, f1),
        !a.stale,
    ensures
        exists|i: int|
            0 <= i < f1.accounts@.len() && (#[trigger] f1.accounts@[i]).access_token == a.access_token
                && f1.accounts@[i].refresh_token == a.refresh_token && f1.accounts@[i].id_token
                == a.id_token && !f1.accounts@[i].stale,
{
    if exists|i: int|
        first_identity(
            f0.accounts@,
            a.email@,
            opt_view(a.account_id),
            opt_view(a.organization_id),
            i,
        ) && f1.accounts@ == f0.accounts@.update(i, with_login(f0.accounts@[i], a)) {
        let i = choose|i: int|
            first_identity(
                f0.accounts@,
                a.email@,
                opt_view(a.account_id),
                opt_view(a.organization_id),
                i,
            ) && f1.accounts@ == f0.accounts@.update(i, with_login(f0.accounts@[i], a));
        assert(f1.accounts@[i] == with_login(f0.accounts@[i], a));
    } else {
        let n = f0.accounts@.len() as int;
        assert(f1.accounts@[n] == a);
    }
}

/// Takes a completed login into the library without changing the active
/// account: the first account of the login's identity gets the new
/// credentials in place, otherwise the login is appended.
pub fn upsert_logged_in_account(file: &mut AccountsFile, account: Account)
    ensures
        upserted(*old(file), account, *final(file)),
{
    match find_identity(
        &file.accounts,
        account.email.as_str(),
        &account.account_id,
        &account.organization_id,
    ) {
        Some(i) => {
            let ghost before = file.accounts@;
            let merged = merge_login(&file.accounts[i], &account);
            file.accounts.set(i, merged);
            assert(first_identity(
                before,
                account.email@,
                opt_view(account.account_id),
                opt_view(account.organization_id),
                i as int,
            ));
        },
        None => {
            file.accounts.push(account);
        },
    }
}

/// The account after a re-login replaces its credentials in place.
pub open spec fn with_reauth(old: Account, fresh: Account) -> Account {
    Account { email: fresh.email, ..with_login(old, fresh) }
}

/// Reviving an account replaces its credentials with the login's: access,
/// refresh and id tokens, and the email; it is no longer stale and keeps
/// its id.
pub proof fn law_reauth_takes_the_login_credentials(old: Account, fresh: Account)
    ensures
        with_reauth(old, fresh).access_token == fresh.access_token,
        with_reauth(old, fresh).refresh_token == fresh.refresh_token,
        with_reauth(old, fresh).id_token == fresh.id_token,
        with_reauth(old, fresh).email == fresh.email,
        !with_reauth(old, fresh).stale,
        with_reauth(old, fresh).id == old.id,
{
}

/// Re-login of one account (reviving a stale one): its credentials are
/// replaced in place, and the current account does not change. A login of
/// another email is refused. `Ok(true)` tells the caller that the account
/// is the current one, whose official credentials must follow.
pub fn reauth_account(file: &mut AccountsFile, target_id: &str, fresh: &Account) -> (r: Result<
    bool,
    AccountError,
>)
    ensures
        final(file).current_account_id == old(file).current_account_id,
        match r {
            Ok(is_current) => exists|i: int|
                {
                    &&& first_with_id(old(file).accounts@, target_id@, i)
                    &&& ({
                        let e = normalized(old(file).accounts@[i].email@);
                        e.len() == 0 || e == fresh.email@
                    })
                    &&& final(file).accounts@ == old(file).accounts@.update(
                        i,
                        with_reauth(old(file).accounts@[i], *fresh),
                    )
                    &&& is_current == old(file).is_current(target_id@)
                },
            Err(e) => {
                &&& e.kind == AccountErrorKind::State
                &&& final(file).accounts@ == old(file).accounts@
                &&& (!has_id(old(file).accounts@, target_id@) || exists|i: int|
                    {
                        &&& first_with_id(old(file).accounts@, target_id@, i)
                        &&& ({
                            let e = normalized(old(file).accounts@[i].email@);
                            e.len() != 0 && e != fresh.email@
                        })
                    })
            },
        },
{
    let idx = match find_by_id(&file.accounts, target_id) {
        Some(i) => i,
        None => return Err(not_found(target_id)),
    };
    let old_email = normalize_email(file.accounts[idx].email.as_str());
    if !old_email.as_str().is_empty() && !text::str_eq(old_email.as_str(), fresh.email.as_str()) {
        let mut msg = text::cat("重新登录邮箱不匹配：目标为 ", file.accounts[idx].email.as_str());
        text::push_str(&mut msg, "，本次为 ");
        text::push_str(&mut msg, fresh.email.as_str());
        text::push_str(&mut msg, "，已拒绝覆盖");
        return Err(AccountError::new(AccountErrorKind::State, msg));
    }
    let mut merged = merge_login(&file.accounts[idx], fresh);
    merged.email = fresh.email.clone();
    file.accounts.set(idx, merged);
    let is_current = match &file.current_account_id {
        Some(c) => text::str_eq(c.as_str(), target_id),
        None => false,
    };
    Ok(is_current)
}


/// The credentials found in the official `auth.json` under `tokens`.
#[derive(Debug)]
pub struct OfficialTokens {
    pub access_token: String,
    pub refresh_token: String,
    pub id_token: String,
    /// `tokens.account_id` as written, when it is a string.
    pub account_id: Option<String>,
}

/// A string member of `tokens`, or empty.
pub open spec fn token_str(tokens: Option<json::JsonDoc>, key: Seq<char>) -> Seq<char> {
    match json::str_field(tokens, key) {
        Some(s) => s,
        None => Seq::empty(),
    }
}

/// Whether `t` holds what `text` says under `tokens`.
pub open spec fn official_tokens_of(text: Seq<char>, t: OfficialTokens) -> bool {
    let tokens = json::field_of(json::json_parse_text(text), "tokens"@);
    &&& tokens is Some
    &&& t.access_token@ == token_str(tokens, "access_token"@)
    &&& t.refresh_token@ == token_str(tokens, "refresh_token"@)
    &&& t.id_token@ == token_str(tokens, "id_token"@)
    &&& opt_view(t.account_id) == json::str_field(tokens, "account_id"@)
}

fn str_member(tokens: &serde_json::Value, key: &str) -> (r: String)
    ensures
        r@ == token_str(Some(json::json_view(*tokens)), key@),
{
    match json::get(tokens, key) {
        Some(v) => match json::as_str(v) {
            Some(s) => text::to_owned(s),
            None => String::new(),
        },
        None => String::new(),
    }
}

/// Reads the official credentials from the text of `auth.json`; `None`
/// when it is not JSON or has no `tokens`.
pub fn official_tokens(text: &str) -> (r: Option<OfficialTokens>)
    ensures
        match r {
            Some(t) => official_tokens_of(text@, t),
            None => json::field_of(json::json_parse_text(text@), "tokens"@) is None,
        },
{
    let v = match json::parse_json(text) {
        Ok(v) => v,
        Err(_) => return None,
    };
    let tokens = match json::get(&v, "tokens") {
        Some(t) => t,
        None => return None,
    };
    let account_id = match json::get(tokens, "account_id") {
        Some(a) => match json::as_str(a) {
            Some(s) => Some(text::to_owned(s)),
            None => None,
        },
        None => None,
    };
    Some(
        OfficialTokens {
            access_token: str_member(tokens, "access_token"),
            refresh_token: str_member(tokens, "refresh_token"),
            id_token: str_member(tokens, "id_token"),
            account_id,
        },
    )
}

/// The account id the official file names: `tokens.account_id` when
/// non-blank and not `"null"`, else the access token's own.
pub open spec fn official_account_id(t: OfficialTokens) -> Option<Seq<char>> {
    match opt_view(t.account_id) {
        Some(s) => {
            let x = text::trim_spec(s);
            if x.len() != 0 && x != "null"@ {
                Some(x)
            } else {
                account_id_of(t.access_token@)
            }
        },
        None => account_id_of(t.access_token@),
    }
}

/// The organisation the official file names: the access token's, else the
/// id token's.
pub open spec fn official_org_id(t: OfficialTokens) -> Option<Seq<char>> {
    or_else(org_id_of(t.access_token@), org_of_id_token(t.id_token@))
}

/// The owner of the official credentials: the normalised `email` claim of
/// the id token.
pub open spec fn official_email(t: OfficialTokens) -> Option<Seq<char>> {
    match jwt::second_segment(t.id_token@) {
        Some(seg) => match email_claim(seg) {
            Some(e) => Some(normalized(e)),
            None => None,
        },
        None => None,
    }
}

/// What harvest changes in a known account, with `changed` telling whether
/// anything did.
pub open spec fn harvested(
    old: Account,
    new: Account,
    t: OfficialTokens,
    aid: Option<Seq<char>>,
    oid: Option<Seq<char>>,
    now: u64,
    changed: bool,
) -> bool {
    let at = t.access_token@;
    let rt = t.refresh_token@;
    let idt = t.id_token@;
    let c1 = old.access_token@ != at && at.len() != 0;
    let c2 = rt.len() != 0 && old.refresh_token@ != rt;
    let c3 = idt.len() != 0 && old.id_token@ != idt && !expired_soon(idt, now);
    let c4 = aid is Some && opt_view(old.account_id) != aid;
    let c5 = oid is Some && opt_view(old.organization_id) != oid;
    &&& changed == (c1 || c2 || c3 || c4 || c5)
    &&& new.id == old.id
    &&& new.email == old.email
    &&& new.access_token@ == (if c1 {
        at
    } else {
        old.access_token@
    })
    &&& new.refresh_token@ == (if c2 {
        rt
    } else {
        old.refresh_token@
    })
    &&& new.id_token@ == (if c3 {
        idt
    } else {
        old.id_token@
    })
    &&& opt_view(new.account_id) == or_else(aid, opt_view(old.account_id))
    &&& opt_view(new.organization_id) == or_else(oid, opt_view(old.organization_id))
    &&& new.expires_at == (if changed {
        (now + HARVEST_VALIDITY_SECS) as u64
    } else {
        old.expires_at
    })
    &&& new.stale == (if changed {
        false
    } else {
        old.stale
    })
}

/// What a harvest did.
#[derive(Debug)]
pub struct HarvestReport {
    /// The library changed and must be saved.
    pub changed: bool,
    /// An unknown official account was adopted into the library.
    pub adopted: bool,
    /// The owner of the official credentials, when they could be read.
    pub email: Option<String>,
    pub account_count: usize,
}

fn opt_str_eq(a: &Option<String>, b: &Option<String>) -> (r: bool)
    ensures
        r == (opt_view(*a) == opt_view(*b)),
{
    match (a, b) {
        (Some(x), Some(y)) => text::str_eq(x.as_str(), y.as_str()),
        (None, None) => true,
        _ => false,
    }
}

fn harvest_account(
    acc: &Account,
    t: &OfficialTokens,
    aid: &Option<String>,
    oid: &Option<String>,
    now: u64,
) -> (r: (Account, bool))
    requires
        now + HARVEST_VALIDITY_SECS <= i64::MAX,
    ensures
        harvested(*acc, r.0, *t, opt_view(*aid), opt_view(*oid), now, r.1),
{
    let mut a = acc.copy();
    let mut changed = false;
    if !text::str_eq(a.access_token.as_str(), t.access_token.as_str())
        && !t.access_token.as_str().is_empty() {
        a.access_token = t.access_token.clone();
        changed = true;
    }
    if !t.refresh_token.as_str().is_empty() && !text::str_eq(
        a.refresh_token.as_str(),
        t.refresh_token.as_str(),
    ) {
        a.refresh_token = t.refresh_token.clone();
        changed = true;
    }
    if !t.id_token.as_str().is_empty() && !text::str_eq(a.id_token.as_str(), t.id_token.as_str())
        && !is_jwt_expired_soon_at(t.id_token.as_str(), now) {
        a.id_token = t.id_token.clone();
        changed = true;
    }
    if aid.is_some() && !opt_str_eq(&a.account_id, aid) {
        a.account_id = copy_opt(aid);
        changed = true;
    }
    if oid.is_some() && !opt_str_eq(&a.organization_id, oid) {
        a.organization_id = copy_opt(oid);
        changed = true;
    }
    if changed {
        a.expires_at = now + HARVEST_VALIDITY_SECS;
        a.stale = false;
    }
    (a, changed)
}

fn official_account_id_exec(t: &OfficialTokens) -> (r: Option<String>)
    ensures
        opt_view(r) == official_account_id(*t),
{
    match &t.account_id {
        Some(s) => {
            let x = text::trim(s.as_str());
            if !x.as_str().is_empty() && !text::str_eq(x.as_str(), "null") {
                Some(x)
            } else {
                extract_chatgpt_account_id(t.access_token.as_str())
            }
        },
        None => extract_chatgpt_account_id(t.access_token.as_str()),
    }
}

/// What a harvest of the official credentials `t` at `now` does to the
/// library `old`, giving `new` and the report `r` (`new_id` names an
/// adopted account).
pub open spec fn harvest_post(
    old: AccountsFile,
    t: OfficialTokens,
    now: u64,
    new_id: Seq<char>,
    new: AccountsFile,
    r: HarvestReport,
) -> bool {
    &&& r.account_count == new.accounts.len()
    &&& opt_view(r.email) == (if t.access_token@.len() == 0 && t.refresh_token@.len() == 0 {
        None
    } else {
        official_email(t)
    })
    &&& match opt_view(r.email) {
        None => !r.changed && !r.adopted && new.accounts@ == old.accounts@
            && new.current_account_id == old.current_account_id,
        Some(email) => {
            let aid = official_account_id(t);
            let oid = official_org_id(t);
            ||| (exists|i: int, acc_changed: bool|
                {
                    &&& first_identity(old.accounts@, email, aid, oid, i)
                    &&& new.accounts@.len() == old.accounts@.len()
                    &&& new.accounts@ == old.accounts@.update(
                        i,
                        new.accounts@[i],
                    )
                    &&& harvested(
                        old.accounts@[i],
                        new.accounts@[i],
                        t,
                        aid,
                        oid,
                        now,
                        acc_changed,
                    )
                    &&& new.is_current(old.accounts@[i].id@)
                    &&& r.changed == (acc_changed || !old.is_current(
                        old.accounts@[i].id@,
                    ))
                    &&& !r.adopted
                })
            ||| {
                &&& no_identity(old.accounts@, email, aid, oid)
                &&& r.changed && r.adopted
                &&& new.accounts@.len() == old.accounts@.len() + 1
                &&& new.accounts@.drop_last() == old.accounts@
                &&& new.is_current(new_id)
                &&& ({
                    let n = new.accounts@.last();
                    &&& n.id@ == new_id
                    &&& n.email@ == email
                    &&& n.access_token@ == t.access_token@
                    &&& n.refresh_token@ == t.refresh_token@
                    &&& n.id_token@ == t.id_token@
                    &&& n.expires_at == now + HARVEST_VALIDITY_SECS
                    &&& !n.stale
                    &&& opt_view(n.account_id) == aid
                    &&& opt_view(n.organization_id) == oid
                })
            }
        },
    }
}

/// Harvest: the official `auth.json` is the authority, since Codex rotates
/// its tokens while running. Its credentials are taken back into the
/// library: a known identity (normalised email from the id token, account
/// and organisation ids) gets the official tokens, an unknown one is
/// adopted under `new_id`, and either way the owner becomes the current
/// account. Nothing changes when the file holds no token or no email.
pub fn harvest_merge(file: &mut AccountsFile, t: &OfficialTokens, now: u64, new_id: &str) -> (r:
    HarvestReport)
    requires
        now + HARVEST_VALIDITY_SECS <= i64::MAX,
    ensures
        harvest_post(*old(file), *t, now, new_id@, *final(file), r),

{
    if t.access_token.as_str().is_empty() && t.refresh_token.as_str().is_empty() {
        return HarvestReport { changed: false, adopted: false, email: None, account_count: file.accounts.len() };
    }
    let email = match jwt::second_segment_of(t.id_token.as_str()) {
        Some(seg) => match decode_jwt_email(seg.as_str()) {
            Some(e) => normalize_email(e.as_str()),
            None => {
                return HarvestReport { changed: false, adopted: false, email: None, account_count: file.accounts.len() };
            },
        },
        None => {
            return HarvestReport { changed: false, adopted: false, email: None, account_count: file.accounts.len() };
        },
    };
    let aid = official_account_id_exec(t);
    let oid = match extract_chatgpt_org_id(t.access_token.as_str()) {
        Some(o) => Some(o),
        None => extract_org_from_id_token(t.id_token.as_str()),
    };
    match find_identity(&file.accounts, email.as_str(), &aid, &oid) {
        Some(i) => {
            let ghost before = file.accounts@;
            let (acc, acc_changed) = harvest_account(&file.accounts[i], t, &aid, &oid, now);
            let was_current = match &file.current_account_id {
                Some(c) => text::str_eq(c.as_str(), acc.id.as_str()),
                None => false,
            };
            let acc_id = acc.id.clone();
            file.accounts.set(i, acc);
            file.current_account_id = Some(acc_id);
            assert(first_identity(before, email@, opt_view(aid), opt_view(oid), i as int));
            assert(file.accounts@ == before.update(i as int, file.accounts@[i as int]));
            HarvestReport {
                changed: acc_changed || !was_current,
                adopted: false,
                email: Some(email),
                account_count: file.accounts.len(),
            }
        },
        None => {
            let ghost before = file.accounts@;
            let acc = Account {
                id: text::to_owned(new_id),
                email: email.clone(),
                access_token: t.access_token.clone(),
                refresh_token: t.refresh_token.clone(),
                id_token: t.id_token.clone(),
                expires_at: now + HARVEST_VALIDITY_SECS,
                stale: false,
                account_id: aid,
                organization_id: oid,
            };
            file.accounts.push(acc);
            file.current_account_id = Some(text::to_owned(new_id));
            assert(file.accounts@.drop_last() =~= before);
            HarvestReport {
                changed: true,
                adopted: true,
                email: Some(email),
                account_count: file.accounts.len(),
            }
        },
    }
}


/// uuid's `Uuid::new_v4().to_string()`: a random id in the hyphenated
/// lower-case form, 36 characters; nothing else is stated of it. (uuid
/// panics only when the operating system yields no random bytes.)
#[verifier::external_body]
pub(crate) fn new_account_id() -> (r: String)
    ensures
        r@.len() == 36,
{
    uuid::Uuid::new_v4().to_string()
}

/// Harvest, with a fresh random id ready for an account that is adopted.
pub fn harvest_with_new_id(file: &mut AccountsFile, t: &OfficialTokens, now: u64) -> (r: HarvestReport)
    requires
        now + HARVEST_VALIDITY_SECS <= i64::MAX,
    ensures
        exists|id: Seq<char>| id.len() == 36 && harvest_post(*old(file), *t, now, id, *final(file), r),
{
    let id = new_account_id();
    harvest_merge(file, t, now, id.as_str())
}

/// Two accounts that hold the same values.
pub open spec fn same_account(a: Account, b: Account) -> bool {
    &&& a.id@ == b.id@
    &&& a.email@ == b.email@
    &&& a.access_token@ == b.access_token@
    &&& a.refresh_token@ == b.refresh_token@
    &&& a.id_token@ == b.id_token@
    &&& a.expires_at == b.expires_at
    &&& a.stale == b.stale
    &&& opt_view(a.account_id) == opt_view(b.account_id)
    &&& opt_view(a.organization_id) == opt_view(b.organization_id)
}

proof fn lemma_first_identity_unique(
    accounts: Seq<Account>,
    email: Seq<char>,
    aid: Option<Seq<char>>,
    oid: Option<Seq<char>>,
    i: int,
    k: int,
)
    requires
        first_identity(accounts, email, aid, oid, i),
        first_identity(accounts, email, aid, oid, k),
    ensures
        i == k,
{
    if k < i {
        assert(!same_identity(accounts[k], email, aid, oid));
    }
    if i < k {
        assert(!same_identity(accounts[i], email, aid, oid));
    }
}

/// Harvesting the same official credentials a second time, no earlier,
/// changes nothing: the first harvest already took in everything the file
/// holds and made its owner current. (The owner's email is in normal form,
/// as the first harvest stored it.)
pub proof fn law_second_harvest_changes_nothing(
    f0: AccountsFile,
    t: OfficialTokens,
    now1: u64,
    id1: Seq<char>,
    f1: AccountsFile,
    r1: HarvestReport,
    now2: u64,
    id2: Seq<char>,
    f2: AccountsFile,
    r2: HarvestReport,
)
    requires
        harvest_post(f0, t, now1, id1, f1, r1),
        harvest_post(f1, t, now2, id2, f2, r2),
        now1 <= now2,
        match official_email(t) {
            Some(e) => normalized(e) == e,
            None => true,
        },
    ensures
        !r2.changed,
        !r2.adopted,
        f2.accounts@.len() == f1.accounts@.len(),
        forall|k: int| 0 <= k < f2.accounts@.len() ==> same_account(#[trigger] f2.accounts@[k], f1.accounts@[k]),
        opt_view(f2.current_account_id) == opt_view(f1.current_account_id),
{
    if let Some(email) = opt_view(r1.email) {
        let aid = official_account_id(t);
        let oid = official_org_id(t);
        let at = t.access_token@;
        let rt = t.refresh_token@;
        let idt = t.id_token@;
        // where the owner stands in `f1`
        let i: int = if exists|i: int, c: bool|
            {
                &&& first_identity(f0.accounts@, email, aid, oid, i)
                &&& f1.accounts@.len() == f0.accounts@.len()
                &&& f1.accounts@ == f0.accounts@.update(i, f1.accounts@[i])
                &&& harvested(f0.accounts@[i], f1.accounts@[i], t, aid, oid, now1, c)
                &&& f1.is_current(f0.accounts@[i].id@)
                &&& r1.changed == (c || !f0.is_current(f0.accounts@[i].id@))
                &&& !r1.adopted
            } {
            let (i, c) = choose|i: int, c: bool|
                {
                    &&& first_identity(f0.accounts@, email, aid, oid, i)
                    &&& f1.accounts@.len() == f0.accounts@.len()
                    &&& f1.accounts@ == f0.accounts@.update(i, f1.accounts@[i])
                    &&& harvested(f0.accounts@[i], f1.accounts@[i], t, aid, oid, now1, c)
                    &&& f1.is_current(f0.accounts@[i].id@)
                    &&& r1.changed == (c || !f0.is_current(f0.accounts@[i].id@))
                    &&& !r1.adopted
                };
            let old_a = f0.accounts@[i];
            let new_a = f1.accounts@[i];
            assert(new_a.access_token@ == at || at.len() == 0);
            assert(new_a.refresh_token@ == rt || rt.len() == 0);
            assert(new_a.id_token@ == idt || idt.len() == 0 || expired_soon(idt, now1));
            assert forall|j: int| 0 <= j < i implies !same_identity(
                #[trigger] f1.accounts@[j],
                email,
                aid,
                oid,
            ) by {
                assert(f1.accounts@[j] == f0.accounts@[j]);
            }
            assert(same_identity(new_a, email, aid, oid));
            assert(first_identity(f1.accounts@, email, aid, oid, i));
            i
        } else {
            let n = f1.accounts@.last();
            let len0 = f0.accounts@.len() as int;
            assert forall|j: int| 0 <= j < len0 implies !same_identity(
                #[trigger] f1.accounts@[j],
                email,
                aid,
                oid,
            ) by {
                assert(f1.accounts@[j] == f1.accounts@.drop_last()[j]);
            }
            assert(f1.accounts@[len0] == n);
            assert(same_identity(n, email, aid, oid));
            assert(first_identity(f1.accounts@, email, aid, oid, len0));
            len0
        };
        assert(opt_view(r2.email) == Some(email));
        if no_identity(f1.accounts@, email, aid, oid) {
            assert(!same_identity(f1.accounts@[i], email, aid, oid));
        }
        let (i2, c2) = choose|i2: int, c2: bool|
            {
                &&& first_identity(f1.accounts@, email, aid, oid, i2)
                &&& f2.accounts@.len() == f1.accounts@.len()
                &&& f2.accounts@ == f1.accounts@.update(i2, f2.accounts@[i2])
                &&& harvested(f1.accounts@[i2], f2.accounts@[i2], t, aid, oid, now2, c2)
                &&& f2.is_current(f1.accounts@[i2].id@)
                &&& r2.changed == (c2 || !f1.is_current(f1.accounts@[i2].id@))
                &&& !r2.adopted
            };
        lemma_first_identity_unique(f1.accounts@, email, aid, oid, i, i2);
        assert(!c2);
        assert(same_account(f2.accounts@[i], f1.accounts@[i]));
        assert forall|k: int| 0 <= k < f2.accounts@.len() implies same_account(
            #[trigger] f2.accounts@[k],
            f1.accounts@[k],
        ) by {
            if k != i {
                assert(f2.accounts@[k] == f1.accounts@[k]);
            }
        }
    } else {
        assert(opt_view(r2.email) == None::<Seq<char>>);
    }
}

/// Whether an account's access token must be refreshed before use.
#[derive(Debug, Clone, Copy, PartialEq, Eq, Structural)]
pub enum RefreshPlan {
    UseCurrent,
    Refresh,
}

/// The health of an account's tokens at `now`.
pub open spec fn health_of(a: Account, now: u64) -> TokenHealth {
    token_health::assess_spec(a.access_token@, a.refresh_token@, a.expires_at, a.stale, now)
}

/// The refresh decision: a token that needs no refresh is used as it is
/// (unless `force`); one that needs it but has no refresh token cannot be
/// used at all; otherwise it is refreshed.
pub open spec fn refresh_plan_spec(a: Account, force: bool, now: u64) -> Result<RefreshPlan, AccountErrorKind> {
    let h = health_of(a, now);
    if !force && !h.needs_refresh_spec() {
        Ok(RefreshPlan::UseCurrent)
    } else if text::trim_spec(a.refresh_token@).len() == 0 {
        if h.needs_refresh_spec() {
            Err(AccountErrorKind::Auth)
        } else {
            Ok(RefreshPlan::UseCurrent)
        }
    } else {
        Ok(RefreshPlan::Refresh)
    }
}

pub fn account_health(a: &Account, now: u64) -> (r: TokenHealth)
    ensures
        r == health_of(*a, now),
{
    token_health::assess(
        a.access_token.as_str(),
        a.refresh_token.as_str(),
        a.expires_at,
        a.stale,
        now,
    )
}

/// Decides whether the access token of `a` must be refreshed at `now`
/// (`force`: the caller saw it rejected).
pub fn refresh_plan(a: &Account, force: bool, now: u64) -> (r: Result<RefreshPlan, AccountError>)
    ensures
        match r {
            Ok(p) => refresh_plan_spec(*a, force, now) == Ok::<RefreshPlan, AccountErrorKind>(p),
            Err(e) => refresh_plan_spec(*a, force, now) == Err::<RefreshPlan, AccountErrorKind>(
                e.kind,
            ),
        },
{
    let h = account_health(a, now);
    let needs = h.needs_refresh();
    if !force && !needs {
        return Ok(RefreshPlan::UseCurrent);
    }
    if text::trim(a.refresh_token.as_str()).as_str().is_empty() {
        if needs {
            let mut msg = text::cat("账号 ", a.email.as_str());
            text::push_str(&mut msg, " 的访问令牌需要刷新但缺少 refresh_token，已拒绝继续以保护当前登录态；请重新登录该账号");
            return Err(AccountError::new(AccountErrorKind::Auth, msg));
        }
        return Ok(RefreshPlan::UseCurrent);
    }
    Ok(RefreshPlan::Refresh)
}

/// The account after a successful refresh: the new access token, a
/// rotated refresh token when one came, a fresh id token when one came,
/// identifiers re-read from the new access token, the expiry from
/// `expires_in` (else the old one while in the future, else one hour), and
/// stale cleared.
pub open spec fn refreshed(old: Account, new: Account, tok: TokenResponse, now: u64) -> bool {
    &&& new.id == old.id
    &&& new.email == old.email
    &&& new.access_token@ == tok.access_token@
    &&& new.refresh_token@ == match tok.refresh_token {
        Some(r) => if r@.len() != 0 {
            r@
        } else {
            old.refresh_token@
        },
        None => old.refresh_token@,
    }
    &&& new.id_token@ == match fresh_id_token(opt_view(tok.id_token), old.id_token@, now) {
        Some(t) => t,
        None => old.id_token@,
    }
    &&& opt_view(new.account_id) == or_else(
        account_id_of(tok.access_token@),
        opt_view(old.account_id),
    )
    &&& opt_view(new.organization_id) == or_else(
        org_id_of(tok.access_token@),
        opt_view(old.organization_id),
    )
    &&& new.expires_at == match tok.expires_in {
        Some(e) => if now + e > u64::MAX {
            u64::MAX
        } else {
            (now + e) as u64
        },
        None => if old.expires_at > now {
            old.expires_at
        } else {
            (now + HARVEST_VALIDITY_SECS) as u64
        },
    }
    &&& !new.stale
}

/// A successful refresh stores the new access token and, when the response
/// carries a non-empty refresh token, that rotated token (the old one is
/// spent); only without one does the old refresh token stay. The account
/// keeps its id and email and is no longer stale.
pub proof fn law_refresh_stores_the_rotated_tokens(old: Account, new: Account, tok: TokenResponse, now: u64)
    requires
        refreshed(old, new, tok, now),
        now + HARVEST_VALIDITY_SECS <= i64::MAX,
    ensures
        new.access_token@ == tok.access_token@,
        forall|r: String| tok.refresh_token == Some(r) && r@.len() != 0 ==> new.refresh_token@ == r@,
        (tok.refresh_token is None || (exists|r: String| tok.refresh_token == Some(r) && r@.len() == 0))
            ==> new.refresh_token@ == old.refresh_token@,
        new.id == old.id,
        new.email == old.email,
        !new.stale,
        tok.expires_in is Some && now + tok.expires_in->0 <= u64::MAX ==> new.expires_at == now
            + tok.expires_in->0,
        new.expires_at > now || (tok.expires_in is Some && tok.expires_in->0 == 0),
{
}

/// Applies a successful refresh to an account.
pub fn apply_refresh_success(a: &mut Account, tok: TokenResponse, now: u64)
    requires
        now + HARVEST_VALIDITY_SECS <= i64::MAX,
    ensures
        refreshed(*old(a), *final(a), tok, now),
{
    let ghost old_a = *a;
    let ghost tok_v = tok;
    let fresh_id = pick_fresh_id_token_at(tok.id_token, a.id_token.as_str(), now);
    let account_id = extract_chatgpt_account_id(tok.access_token.as_str());
    let organization_id = extract_chatgpt_org_id(tok.access_token.as_str());
    a.access_token = tok.access_token;
    match tok.refresh_token {
        Some(r) => if !r.as_str().is_empty() {
            a.refresh_token = r;
        },
        None => {},
    }
    match fresh_id {
        Some(t) => {
            a.id_token = t;
        },
        None => {},
    }
    if account_id.is_some() {
        a.account_id = account_id;
    }
    if organization_id.is_some() {
        a.organization_id = organization_id;
    }
    a.expires_at = match tok.expires_in {
        Some(e) => now.saturating_add(e),
        None => if a.expires_at > now {
            a.expires_at
        } else {
            now + HARVEST_VALIDITY_SECS
        },
    };
    a.stale = false;
    assert(refreshed(old_a, *a, tok_v, now));
}

/// Applies a failed refresh: an auth rejection marks the account stale; a
/// transient failure continues only while the current access token may
/// still be projected, else the operation stops without marking it.
pub fn apply_refresh_failure(a: &mut Account, health: TokenHealth, err: &RefreshError) -> (r: Result<
    (),
    AccountError,
>)
    ensures
        match token_health::refresh_failure_spec(health, err.is_auth_rejection_spec()) {
            RefreshFailureAction::MarkStale => {
                &&& *final(a) == Account { stale: true, ..*old(a) }
                &&& r matches Err(e) && e.kind == AccountErrorKind::Auth
            },
            RefreshFailureAction::ContinueWithCurrentAccess => *final(a) == *old(a) && r is Ok,
            RefreshFailureAction::AbortWithoutStale => {
                &&& *final(a) == *old(a)
                &&& r matches Err(e) && e.kind == AccountErrorKind::External
            },
        },
{
    let action = token_health::classify_refresh_failure(health, err.is_auth_rejection());
    match action {
        RefreshFailureAction::MarkStale => {
            a.stale = true;
            let mut msg = text::cat("账号 ", a.email.as_str());
            text::push_str(&mut msg, " 的凭据已过期（可能在 Codex 侧轮换时未收编），已拒绝继续以保护当前登录态；请对该账号重新登录复活一次");
            Err(AccountError::new(AccountErrorKind::Auth, msg))
        },
        RefreshFailureAction::ContinueWithCurrentAccess => Ok(()),
        RefreshFailureAction::AbortWithoutStale => {
            let mut msg = text::cat("刷新失败（", err.to_message().as_str());
            text::push_str(&mut msg, "），当前访问令牌已不可用，已中止以保护当前登录态");
            Err(AccountError::new(AccountErrorKind::External, msg))
        },
    }
}

/// Whether a refresh rotated any credential.
pub open spec fn rotated(before: Account, after: Account) -> bool {
    before.access_token@ != after.access_token@ || before.refresh_token@ != after.refresh_token@
        || before.id_token@ != after.id_token@
}

/// Whether any credential differs; a rotated active account's official
/// file must follow (library first, official file second).
pub fn credentials_rotated(before: &Account, after: &Account) -> (r: bool)
    ensures
        r == rotated(*before, *after),
{
    !text::str_eq(before.access_token.as_str(), after.access_token.as_str()) || !text::str_eq(
        before.refresh_token.as_str(),
        after.refresh_token.as_str(),
    ) || !text::str_eq(before.id_token.as_str(), after.id_token.as_str())
}

/// The account to switch to, at `r`: it exists and is not stale (a stale
/// account would overwrite working official credentials with dead ones).
pub fn switch_precheck(file: &AccountsFile, account_id: &str) -> (r: Result<usize, AccountError>)
    ensures
        match r {
            Ok(i) => first_with_id(file.accounts@, account_id@, i as int) && !file.accounts@[i as int].stale,
            Err(e) => (!has_id(file.accounts@, account_id@) && e.kind == AccountErrorKind::State)
                || (exists|i: int|
                first_with_id(file.accounts@, account_id@, i) && file.accounts@[i].stale)
                && e.kind == AccountErrorKind::Auth,
        },
{
    let idx = match find_by_id(&file.accounts, account_id) {
        Some(i) => i,
        None => return Err(not_found(account_id)),
    };
    if file.accounts[idx].stale {
        let mut msg = text::cat("账号 ", file.accounts[idx].email.as_str());
        text::push_str(&mut msg, " 的凭据已失效（需重新登录），已拒绝切换以保护当前登录态；可用「复活」定向重新登录该账号");
        return Err(AccountError::new(AccountErrorKind::Auth, msg));
    }
    Ok(idx)
}

/// The account whose credentials a quota query needs, at `r`: it exists
/// and is not stale.
pub fn fresh_precheck(file: &AccountsFile, account_id: &str) -> (r: Result<usize, AccountError>)
    ensures
        match r {
            Ok(i) => first_with_id(file.accounts@, account_id@, i as int) && !file.accounts@[i as int].stale,
            Err(e) => (!has_id(file.accounts@, account_id@) && e.kind == AccountErrorKind::State)
                || (exists|i: int|
                first_with_id(file.accounts@, account_id@, i) && file.accounts@[i].stale)
                && e.kind == AccountErrorKind::Auth,
        },
{
    let idx = match find_by_id(&file.accounts, account_id) {
        Some(i) => i,
        None => return Err(not_found(account_id)),
    };
    if file.accounts[idx].stale {
        let mut msg = text::cat("账号 ", file.accounts[idx].email.as_str());
        text::push_str(&mut msg, " 已失效（用「复活」重新登录一次即可），跳过");
        return Err(AccountError::new(AccountErrorKind::Auth, msg));
    }
    Ok(idx)
}

/// Before projecting: an account without an access token is never written
/// over the official credentials; it is marked stale instead.
pub fn check_projectable(file: &mut AccountsFile, idx: usize) -> (r: Result<(), AccountError>)
    requires
        idx < old(file).accounts.len(),
    ensures
        final(file).current_account_id == old(file).current_account_id,
        match r {
            Ok(()) => text::trim_spec(old(file).accounts@[idx as int].access_token@).len() != 0
                && final(file).accounts@ == old(file).accounts@,
            Err(e) => text::trim_spec(old(file).accounts@[idx as int].access_token@).len() == 0
                && e.kind == AccountErrorKind::Auth && final(file).accounts@ == old(
                file,
            ).accounts@.update(idx as int, Account { stale: true, ..old(file).accounts@[idx as int] }),
        },
{
    if text::trim(file.accounts[idx].access_token.as_str()).as_str().is_empty() {
        let mut a = file.accounts[idx].copy();
        a.stale = true;
        let mut msg = text::cat("账号 ", a.email.as_str());
        text::push_str(&mut msg, " 缺少 access_token 且无法刷新，已标为需重新登录（用「复活」处理），未触碰官方登录态");
        file.accounts.set(idx, a);
        return Err(AccountError::new(AccountErrorKind::Auth, msg));
    }
    Ok(())
}

/// Makes `id` the current account.
pub fn set_current(file: &mut AccountsFile, id: &str)
    ensures
        final(file).accounts@ == old(file).accounts@,
        final(file).is_current(id@),
{
    file.current_account_id = Some(text::to_owned(id));
}

/// `YYYY-MM-DDTHH:MM:SSZ` of a Unix time.
pub open spec fn rfc3339_text(unix_secs: u64) -> Seq<char> {
    let sod = unix_secs % 86400;
    let (y, m, d) = calendar::civil_from_days((unix_secs / 86400) as int);
    text::pad0(text::dec(y), 4) + "-"@ + text::pad0(text::dec(m), 2) + "-"@ + text::pad0(
        text::dec(d),
        2,
    ) + "T"@ + text::pad0(text::dec((sod / 3600) as int), 2) + ":"@ + text::pad0(
        text::dec(((sod % 3600) / 60) as int),
        2,
    ) + ":"@ + text::pad0(text::dec((sod % 60) as int), 2) + "Z"@
}

/// A Unix time in seconds as an RFC 3339 UTC text.
pub fn chrono_rfc3339(unix_secs: u64) -> (r: String)
    ensures
        r@ == rfc3339_text(unix_secs),
{
    let days = (unix_secs / 86400) as i64;
    let sod = unix_secs % 86400;
    let (year, month, d) = calendar::civil_exec(days);
    assert(year >= 0);
    let mut out = text::fmt_pad0(year as u64, 4);
    text::push_str(&mut out, "-");
    text::push_str(&mut out, text::fmt_i64_pad2(month).as_str());
    text::push_str(&mut out, "-");
    text::push_str(&mut out, text::fmt_i64_pad2(d).as_str());
    text::push_str(&mut out, "T");
    text::push_str(&mut out, text::fmt_pad0(sod / 3600, 2).as_str());
    text::push_str(&mut out, ":");
    text::push_str(&mut out, text::fmt_pad0((sod % 3600) / 60, 2).as_str());
    text::push_str(&mut out, ":");
    text::push_str(&mut out, text::fmt_pad0(sod % 60, 2).as_str());
    text::push_str(&mut out, "Z");
    out
}

/// `s` without leading and trailing `c` characters (`trim_matches(c)`).
pub open spec fn strip_both(s: Seq<char>, c: char) -> Seq<char> {
    crate::updater::strip_leading(jwt::strip_trailing(s, c), c)
}

/// The Codex home a `CODEX_HOME` value names: trimmed, quotes removed,
/// trimmed again; `None` when nothing is left.
pub open spec fn codex_home_spec(raw: Seq<char>) -> Option<Seq<char>> {
    let t = text::trim_spec(strip_both(strip_both(text::trim_spec(raw), '"'), '\''));
    if t.len() == 0 {
        None
    } else {
        Some(t)
    }
}

fn strip_both_of(s: &str, c: char) -> (r: String)
    ensures
        r@ == strip_both(s@, c),
{
    let t = jwt::strip_trailing_of(s, c);
    crate::updater::strip_leading_of(t.as_str(), c)
}

/// Reads a `CODEX_HOME` value.
pub fn codex_home_override(raw: &str) -> (r: Option<String>)
    ensures
        opt_view(r) == codex_home_spec(raw@),
{
    let a = text::trim(raw);
    let b = strip_both_of(a.as_str(), '"');
    let c = strip_both_of(b.as_str(), '\'');
    let t = text::trim(c.as_str());
    if t.as_str().is_empty() {
        None
    } else {
        Some(t)
    }
}

/// The base of a file name (`file` when there is none).
pub open spec fn name_or_file(file_name: Option<Seq<char>>) -> Seq<char> {
    match file_name {
        Some(n) => n,
        None => "file"@,
    }
}

/// The backup's file name: the file's name and `.bak`.
pub fn backup_name(file_name: Option<&str>) -> (r: String)
    ensures
        r@ == name_or_file(
            match file_name {
                Some(n) => Some(n@),
                None => None,
            },
        ) + ".bak"@,
{
    let n: &str = match file_name {
        Some(n) => n,
        None => "file",
    };
    text::cat(n, ".bak")
}

/// A temporary file's name, unique per process and moment:
/// `.<name>.tmp.<pid>.<nanos>.atomic`.
pub fn temp_name(file_name: Option<&str>, pid: u32, nanos: u64) -> (r: String)
    ensures
        r@ == "."@ + name_or_file(
            match file_name {
                Some(n) => Some(n@),
                None => None,
            },
        ) + ".tmp."@ + text::dec(pid as int) + "."@ + text::dec(nanos as int) + ".atomic"@,
{
    let n: &str = match file_name {
        Some(n) => n,
        None => "file",
    };
    let mut s = text::cat(".", n);
    text::push_str(&mut s, ".tmp.");
    text::push_str(&mut s, text::fmt_u64(pid as u64).as_str());
    text::push_str(&mut s, ".");
    text::push_str(&mut s, text::fmt_u64(nanos).as_str());
    text::push_str(&mut s, ".atomic");
    s
}

/// A write failed because the disk is full: OS error 28 (112 on
/// Windows), or the message says so.
pub fn is_disk_full(raw_os_error: Option<i32>, message: &str) -> (r: bool)
    ensures
        r == (raw_os_error == Some(28i32) || raw_os_error == Some(112i32) || text::has_substring(
            message@,
            "No space left on device"@,
        )),
{
    match raw_os_error {
        Some(28) | Some(112) => true,
        _ => text::contains(message, "No space left on device"),
    }
}

} // verus!
