//! The trusted boundary to `serde_json`: declarations of its opaque types,
//! names for what its deterministic parser yields, and the two wrappers the
//! verified logic calls through.

use vstd::prelude::*;

verus! {

#[verifier::external_type_specification]
#[verifier::external_body]
pub struct ExValue(serde_json::Value);

#[verifier::external_type_specification]
#[verifier::external_body]
pub struct ExJsonError(serde_json::Error);

/// Whether `s` is a JSON document that `serde_json`'s parser accepts.
pub uninterp spec fn json_text_ok(s: Seq<char>) -> bool;

/// The string-valued fields of the JSON document `s`: each key of the
/// top-level object whose value is a JSON string, mapped to that string's
/// characters.  Meant to hold no keys when the document is not an object.
pub uninterp spec fn json_text_str_fields(s: Seq<char>) -> Map<Seq<char>, Seq<char>>;

/// What a parsed `serde_json::Value` holds: each key of its top-level
/// object whose value is a JSON string, mapped to that string's characters.
pub uninterp spec fn value_str_fields(v: serde_json::Value) -> Map<Seq<char>, Seq<char>>;

/// Relies on `serde_json::from_str::<Value>`: parsing is a function of the
/// text alone, it succeeds exactly on valid JSON, and the value it yields
/// carries the document's fields.
#[verifier::external_body]
pub(crate) fn parse_json_text(s: &str) -> (r: Result<serde_json::Value, serde_json::Error>)
    ensures
        r is Ok <==> json_text_ok(s@),
        r matches Ok(v) ==> value_str_fields(v) == json_text_str_fields(s@),
{
    serde_json::from_str::<serde_json::Value>(s)
}

/// Relies on `serde_json::Value::get` with a `&str` key and on the
/// `Value::String` variant: together they yield the field under `key`
/// exactly when the top-level object has a string there.
#[verifier::external_body]
pub(crate) fn get_string_field(v: &serde_json::Value, key: &str) -> (r: Option<String>)
    ensures
        r matches Some(f) ==> value_str_fields(*v).contains_key(key@) && f@ == value_str_fields(
            *v,
        )[key@],
        r is None ==> !value_str_fields(*v).contains_key(key@),
{
    match v.get(key) {
        Some(serde_json::Value::String(f)) => Some(f.clone()),
        _ => None,
    }
}

} // verus!
