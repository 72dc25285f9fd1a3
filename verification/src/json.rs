//! JSON documents as serde_json parses them. A `serde_json::Value` is opaque
//! to Verus; what it holds is named by `json_view`, and every accessor the
//! library uses states its result over that view.

use serde_json::Value;
use vstd::prelude::*;

verus! {

#[verifier::external_type_specification]
#[verifier::external_body]
pub struct ExValue(serde_json::Value);

/// A JSON number as serde_json stores it. A float is kept as the `i64`
/// that Rust's saturating `as` conversion gives for it (the only thing the
/// library reads from a float) and as its IEEE 754 bit pattern.
pub enum JsonNum {
    PosInt(u64),
    NegInt(i64),
    Float(i64, u64),
}

/// A JSON document.
pub enum JsonDoc {
    Null,
    Bool(bool),
    Num(JsonNum),
    Str(Seq<char>),
    Arr(Seq<JsonDoc>),
    Obj(Map<Seq<char>, JsonDoc>),
}

/// The document that a parsed serde_json value holds.
pub uninterp spec fn json_view(v: Value) -> JsonDoc;

/// What `serde_json::from_str::<Value>` makes of a text (`None`: rejected).
pub uninterp spec fn json_parse_text(text: Seq<char>) -> Option<JsonDoc>;

/// The message of serde_json's error for a rejected text.
pub uninterp spec fn json_error_text(text: Seq<char>) -> Seq<char>;

/// What `serde_json::from_slice::<Value>` makes of bytes (`None`: rejected).
pub uninterp spec fn json_parse_bytes(bytes: Seq<u8>) -> Option<JsonDoc>;

/// The member `key` of an object (`Value::get` with a string key).
pub open spec fn field(j: JsonDoc, key: Seq<char>) -> Option<JsonDoc> {
    match j {
        JsonDoc::Obj(m) => if m.contains_key(key) {
            Some(m[key])
        } else {
            None
        },
        _ => None,
    }
}

/// `field` on an optional document.
pub open spec fn field_of(j: Option<JsonDoc>, key: Seq<char>) -> Option<JsonDoc> {
    match j {
        Some(d) => field(d, key),
        None => None,
    }
}

/// `Value::as_i64`.
pub open spec fn as_i64_of(j: JsonDoc) -> Option<i64> {
    match j {
        JsonDoc::Num(JsonNum::PosInt(u)) => if u <= i64::MAX {
            Some(u as i64)
        } else {
            None
        },
        JsonDoc::Num(JsonNum::NegInt(i)) => Some(i),
        _ => None,
    }
}

/// `Value::as_u64`.
pub open spec fn as_u64_of(j: JsonDoc) -> Option<u64> {
    match j {
        JsonDoc::Num(JsonNum::PosInt(u)) => Some(u),
        _ => None,
    }
}

/// `Value::as_str`.
pub open spec fn as_str_of(j: JsonDoc) -> Option<Seq<char>> {
    match j {
        JsonDoc::Str(s) => Some(s),
        _ => None,
    }
}

/// `Value::as_bool`.
pub open spec fn as_bool_of(j: JsonDoc) -> Option<bool> {
    match j {
        JsonDoc::Bool(b) => Some(b),
        _ => None,
    }
}

/// The optional `i64` member `key`.
pub open spec fn i64_field(j: Option<JsonDoc>, key: Seq<char>) -> Option<i64> {
    match field_of(j, key) {
        Some(d) => as_i64_of(d),
        None => None,
    }
}

/// The optional string member `key`.
pub open spec fn str_field(j: Option<JsonDoc>, key: Seq<char>) -> Option<Seq<char>> {
    match field_of(j, key) {
        Some(d) => as_str_of(d),
        None => None,
    }
}

/// serde_json's `from_str::<Value>`; an error is given as its `Display`
/// text.
#[verifier::external_body]
pub(crate) fn parse_json(text: &str) -> (r: Result<Value, String>)
    ensures
        match r {
            Ok(v) => json_parse_text(text@) == Some(json_view(v)),
            Err(e) => json_parse_text(text@) is None && e@ == json_error_text(text@),
        },
{
    serde_json::from_str::<Value>(text).map_err(|e| e.to_string())
}

/// serde_json's `from_slice::<Value>`.
#[verifier::external_body]
pub(crate) fn parse_json_bytes(bytes: &[u8]) -> (r: Option<Value>)
    ensures
        match r {
            Some(v) => json_parse_bytes(bytes@) == Some(json_view(v)),
            None => json_parse_bytes(bytes@) is None,
        },
{
    serde_json::from_slice::<Value>(bytes).ok()
}

/// serde_json's `Value::get` with a string key: the member of that name of
/// an object, nothing for anything else.
#[verifier::external_body]
pub(crate) fn get<'a>(v: &'a Value, key: &str) -> (r: Option<&'a Value>)
    ensures
        match r {
            Some(x) => field(json_view(*v), key@) == Some(json_view(*x)),
            None => field(json_view(*v), key@) is None,
        },
{
    v.get(key)
}

/// serde_json's `Value::as_i64`: the number when it is an integer that fits
/// `i64`.
#[verifier::external_body]
pub(crate) fn as_i64(v: &Value) -> (r: Option<i64>)
    ensures
        r == as_i64_of(json_view(*v)),
{
    v.as_i64()
}

/// serde_json's `Value::as_u64`: the number when it is a non-negative
/// integer.
#[verifier::external_body]
pub(crate) fn as_u64(v: &Value) -> (r: Option<u64>)
    ensures
        r == as_u64_of(json_view(*v)),
{
    v.as_u64()
}

/// serde_json's `Value::as_bool`: the value of a boolean.
#[verifier::external_body]
pub(crate) fn as_bool(v: &Value) -> (r: Option<bool>)
    ensures
        r == as_bool_of(json_view(*v)),
{
    v.as_bool()
}

/// serde_json's `Value::as_str`: the text of a string.
#[verifier::external_body]
pub(crate) fn as_str<'a>(v: &'a Value) -> (r: Option<&'a str>)
    ensures
        match r {
            Some(s) => as_str_of(json_view(*v)) == Some(s@),
            None => as_str_of(json_view(*v)) is None,
        },
{
    v.as_str()
}

/// serde_json's `Value::as_array`: the elements of an array, in order.
#[verifier::external_body]
pub(crate) fn as_array<'a>(v: &'a Value) -> (r: Option<&'a Vec<Value>>)
    ensures
        match r {
            Some(a) => json_view(*v) == JsonDoc::Arr(a@.map_values(|x: Value| json_view(x))),
            None => !(json_view(*v) is Arr),
        },
{
    v.as_array()
}

/// serde_json's `Value::as_f64`, converted with Rust's saturating `as i64`.
/// Of an integer that fits `i64` the rounding through `f64` is left unstated.
#[verifier::external_body]
pub(crate) fn as_f64_truncated(v: &Value) -> (r: Option<i64>)
    ensures
        match json_view(*v) {
            JsonDoc::Num(JsonNum::Float(t, _)) => r == Some(t),
            JsonDoc::Num(JsonNum::PosInt(u)) => u > i64::MAX ==> r == Some(i64::MAX),
            JsonDoc::Num(JsonNum::NegInt(_)) => r is Some,
            _ => r is None,
        },
{
    v.as_f64().map(|f| f as i64)
}


/// What `serde_json::to_string_pretty` writes for a document (two-space
/// indentation; object members in key order, serde_json keeping objects
/// sorted by key).
pub uninterp spec fn json_pretty(j: JsonDoc) -> Seq<char>;

/// serde_json's `to_string_pretty` of a value; writing a `Value` to a
/// `String` never fails.
#[verifier::external_body]
pub(crate) fn to_string_pretty(v: &Value) -> (r: String)
    ensures
        r@ == json_pretty(json_view(*v)),
{
    serde_json::to_string_pretty(v).unwrap_or_default()
}

/// `Value::is_object`.
#[verifier::external_body]
pub(crate) fn is_object(v: &Value) -> (r: bool)
    ensures
        r == (json_view(*v) is Obj),
{
    v.is_object()
}

/// An empty object (`Value::Object` of an empty map).
#[verifier::external_body]
pub(crate) fn empty_object() -> (r: Value)
    ensures
        json_view(r) == JsonDoc::Obj(Map::empty()),
{
    Value::Object(serde_json::Map::new())
}

/// `Value::Null`.
#[verifier::external_body]
pub(crate) fn null_value() -> (r: Value)
    ensures
        json_view(r) == JsonDoc::Null,
{
    Value::Null
}

/// `Value::String` of a string.
#[verifier::external_body]
pub(crate) fn string_value(s: String) -> (r: Value)
    ensures
        json_view(r) == JsonDoc::Str(s@),
{
    Value::String(s)
}

/// Sets member `key` of an object (`Value`'s `IndexMut` with a string key,
/// which inserts or replaces the member).
#[verifier::external_body]
pub(crate) fn obj_insert(v: &mut Value, key: &str, val: Value)
    requires
        json_view(*old(v)) is Obj,
    ensures
        json_view(*final(v)) == JsonDoc::Obj(json_view(*old(v))->Obj_0.insert(key@, json_view(val))),
{
    v[key] = val;
}

/// Removes member `key` of an object (`Map::remove` on the object's map).
#[verifier::external_body]
pub(crate) fn obj_remove(v: &mut Value, key: &str)
    requires
        json_view(*old(v)) is Obj,
    ensures
        json_view(*final(v)) == JsonDoc::Obj(json_view(*old(v))->Obj_0.remove(key@)),
{
    if let Some(m) = v.as_object_mut() {
        m.remove(key);
    }
}

} // verus!
