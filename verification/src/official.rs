//! The official Codex `auth.json` as an account is written over it: the
//! file's other top-level members are kept, the credential members are
//! replaced by the account's.

use crate::account::{opt_view, Account};
use crate::json::{self, JsonDoc};
use crate::text;
use vstd::prelude::*;

verus! {

/// The top-level members of the existing file: those of a JSON object, none
/// when there is no file, it does not parse, or it is not an object.
pub open spec fn existing_members(existing: Option<Seq<char>>) -> Map<Seq<char>, JsonDoc> {
    match existing {
        Some(t) => match json::json_parse_text(t) {
            Some(JsonDoc::Obj(m)) => m,
            _ => Map::empty(),
        },
        None => Map::empty(),
    }
}

/// The `tokens` member written for an account; an account id that is
/// missing or blank is written as `null`.
pub open spec fn tokens_doc(a: Account) -> JsonDoc {
    JsonDoc::Obj(
        Map::empty().insert("id_token"@, JsonDoc::Str(a.id_token@)).insert(
            "access_token"@,
            JsonDoc::Str(a.access_token@),
        ).insert("refresh_token"@, JsonDoc::Str(a.refresh_token@)).insert(
            "account_id"@,
            match opt_view(a.account_id) {
                Some(x) => if text::trim_spec(x).len() != 0 {
                    JsonDoc::Str(x)
                } else {
                    JsonDoc::Null
                },
                None => JsonDoc::Null,
            },
        ),
    )
}

/// The file after the projection: the old credential and expiry members
/// dropped, then `auth_mode` "chatgpt", `OPENAI_API_KEY` null, the account's
/// `tokens` and `last_refresh` set.
pub open spec fn projected_doc(m: Map<Seq<char>, JsonDoc>, a: Account, last_refresh: Seq<char>) -> JsonDoc {
    JsonDoc::Obj(
        m.remove("auth_mode"@).remove("OPENAI_API_KEY"@).remove("tokens"@).remove(
            "last_refresh"@,
        ).remove("expired"@).remove("expires_in"@).remove("timestamp"@).insert(
            "auth_mode"@,
            JsonDoc::Str("chatgpt"@),
        ).insert("OPENAI_API_KEY"@, JsonDoc::Null).insert("tokens"@, tokens_doc(a)).insert(
            "last_refresh"@,
            JsonDoc::Str(last_refresh),
        ),
    )
}

fn tokens_value(a: &Account) -> (r: serde_json::Value)
    ensures
        json::json_view(r) == tokens_doc(*a),
{
    let mut t = json::empty_object();
    json::obj_insert(&mut t, "id_token", json::string_value(a.id_token.clone()));
    json::obj_insert(&mut t, "access_token", json::string_value(a.access_token.clone()));
    json::obj_insert(&mut t, "refresh_token", json::string_value(a.refresh_token.clone()));
    let id = match &a.account_id {
        Some(x) => if text::trim(x.as_str()).as_str().is_empty() {
            json::null_value()
        } else {
            json::string_value(x.clone())
        },
        None => json::null_value(),
    };
    json::obj_insert(&mut t, "account_id", id);
    t
}

/// The text of the official `auth.json` after writing `account` over the
/// existing text (if any), refreshed at `last_refresh` (RFC 3339).
pub fn projected_auth_text(existing: Option<&str>, account: &Account, last_refresh: &str) -> (r: String)
    ensures
        r@ == json::json_pretty(
            projected_doc(
                existing_members(
                    match existing {
                        Some(t) => Some(t@),
                        None => None,
                    },
                ),
                *account,
                last_refresh@,
            ),
        ),
{
    let mut merged = match existing {
        Some(t) => match json::parse_json(t) {
            Ok(v) => if json::is_object(&v) {
                v
            } else {
                json::empty_object()
            },
            Err(_) => json::empty_object(),
        },
        None => json::empty_object(),
    };
    json::obj_remove(&mut merged, "auth_mode");
    json::obj_remove(&mut merged, "OPENAI_API_KEY");
    json::obj_remove(&mut merged, "tokens");
    json::obj_remove(&mut merged, "last_refresh");
    json::obj_remove(&mut merged, "expired");
    json::obj_remove(&mut merged, "expires_in");
    json::obj_remove(&mut merged, "timestamp");
    json::obj_insert(&mut merged, "auth_mode", json::string_value(text::to_owned("chatgpt")));
    json::obj_insert(&mut merged, "OPENAI_API_KEY", json::null_value());
    json::obj_insert(&mut merged, "tokens", tokens_value(account));
    json::obj_insert(&mut merged, "last_refresh", json::string_value(text::to_owned(last_refresh)));
    json::to_string_pretty(&merged)
}

} // verus!
