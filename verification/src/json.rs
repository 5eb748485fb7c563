//! What this library takes on trust from `serde_json`.
//!
//! An index record is a JSON object, and of such an object the library reads
//! only the members whose value is a string. Parsing is left to `serde_json`;
//! the contracts here say how its results show in the library's own terms,
//! and nothing in this file is proved.

use vstd::prelude::*;

verus! {

/// `serde_json::Value`, a parsed JSON document. Its inside is not read here:
/// contracts speak of it through [`json_string_members`].
#[verifier::external_type_specification]
#[verifier::external_body]
pub struct ExJsonValue(serde_json::Value);

/// `serde_json::Error`, why a text was rejected. Nothing is said of it.
#[verifier::external_type_specification]
#[verifier::external_body]
pub struct ExJsonError(serde_json::Error);

/// The string members of a parsed JSON value: where `value` is an object, the
/// map from each key whose value is a JSON string to that string; the empty
/// map where `value` is anything else.
pub uninterp spec fn json_string_members(value: serde_json::Value) -> Map<Seq<char>, Seq<char>>;

/// What `serde_json::from_slice` makes of `text` when asked for a
/// `serde_json::Value`: `None` where it rejects the text, else the string
/// members of the value it returns.
pub uninterp spec fn json_text_members(text: Seq<u8>) -> Option<Map<Seq<char>, Seq<char>>>;

/// Calls `serde_json::from_slice::<serde_json::Value>`. The contract claims
/// only that the outcome is a function of the bytes, named by
/// [`json_text_members`]: an error exactly where that is `None`, else a value
/// with the string members it gives.
#[verifier::external_body]
pub(crate) fn parse_json(text: &[u8]) -> (r: Result<serde_json::Value, serde_json::Error>)
    ensures
        match r {
            Ok(value) => json_text_members(text@) == Some(json_string_members(value)),
            Err(_) => json_text_members(text@) is None,
        },
{
    serde_json::from_slice::<serde_json::Value>(text)
}

/// Calls `serde_json::Value::get` with a string key and hands out the member
/// found there if it is a JSON string. The contract claims that this is how
/// [`json_string_members`] reads: `Some` with the member's text where `value`
/// is an object that has a string under `key`, `None` in every other case.
#[verifier::external_body]
pub(crate) fn string_member(value: &serde_json::Value, key: &str) -> (r: Option<String>)
    ensures
        match r {
            Some(text) => json_string_members(*value).contains_key(key@)
                && json_string_members(*value)[key@] == text@,
            None => !json_string_members(*value).contains_key(key@),
        },
{
    match value.get(key) {
        Some(serde_json::Value::String(text)) => Some(text.clone()),
        _ => None,
    }
}

} // verus!
