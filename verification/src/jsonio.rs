//! The crate's window onto `serde_json`: every call into the JSON parser
//! goes through one of the trusted items below, and each result is pinned to
//! an uninterpreted name so that the verified logic can speak about it.
//!
//! Each name stands for a value that depends on the document text alone:
//! parsing the same text twice gives the same answer.

use vstd::prelude::*;

verus! {

/// The string field `name` of the JSON object that `doc` parses to, if `doc`
/// parses to an object carrying `name` with a string value.
pub uninterp spec fn str_field_of(doc: Seq<char>, name: Seq<char>) -> Option<Seq<char>>;

/// The boolean field `name` of the JSON object that `doc` parses to.
pub uninterp spec fn bool_field_of(doc: Seq<char>, name: Seq<char>) -> Option<bool>;

/// The unsigned integer field `name` of the JSON object that `doc` parses to.
pub uninterp spec fn u64_field_of(doc: Seq<char>, name: Seq<char>) -> Option<u64>;

/// Whether `doc` parses as a JSON object.
pub uninterp spec fn is_json_object_of(doc: Seq<char>) -> bool;

/// The string at `choices[0].text` of the JSON value that `doc` parses to,
/// if that path exists and holds a string.
pub uninterp spec fn choices_text_of(doc: Seq<char>) -> Option<Seq<char>>;

/// Relies on `serde_json::from_str` and `serde_json::Value::{get, as_str}`:
/// parses `doc` and returns the string field `name` of the resulting object,
/// or `None` when `doc` does not parse, is not an object, lacks the field,
/// or holds it with a non-string value.
#[verifier::external_body]
pub(crate) fn json_str_field(doc: &str, name: &str) -> (r: Option<String>)
    ensures
        r is Some <==> str_field_of(doc@, name@) is Some,
        r matches Some(s) ==> s@ == str_field_of(doc@, name@).unwrap(),
{
    match serde_json::from_str::<serde_json::Value>(doc) {
        Ok(v) => v.get(name).and_then(|f| f.as_str()).map(|s| s.to_string()),
        Err(_) => None,
    }
}

/// Relies on `serde_json::from_str` and `serde_json::Value::{get, as_bool}`:
/// the boolean field `name` of the object `doc` parses to, if any.
#[verifier::external_body]
pub(crate) fn json_bool_field(doc: &str, name: &str) -> (r: Option<bool>)
    ensures
        r == bool_field_of(doc@, name@),
{
    match serde_json::from_str::<serde_json::Value>(doc) {
        Ok(v) => v.get(name).and_then(|f| f.as_bool()),
        Err(_) => None,
    }
}

/// Relies on `serde_json::from_str` and `serde_json::Value::{get, as_u64}`:
/// the unsigned integer field `name` of the object `doc` parses to, if any.
#[verifier::external_body]
pub(crate) fn json_u64_field(doc: &str, name: &str) -> (r: Option<u64>)
    ensures
        r == u64_field_of(doc@, name@),
{
    match serde_json::from_str::<serde_json::Value>(doc) {
        Ok(v) => v.get(name).and_then(|f| f.as_u64()),
        Err(_) => None,
    }
}

/// Relies on `serde_json::from_str` and `serde_json::Value::is_object`:
/// whether `doc` parses as a JSON object.
#[verifier::external_body]
pub(crate) fn json_is_object(doc: &str) -> (r: bool)
    ensures
        r == is_json_object_of(doc@),
{
    match serde_json::from_str::<serde_json::Value>(doc) {
        Ok(v) => v.is_object(),
        Err(_) => false,
    }
}

/// Relies on `serde_json::from_str` and `serde_json::Value::{get, as_str}`:
/// the string at `choices[0].text` of the value `doc` parses to, or `None`
/// when any step of that path is missing or of the wrong shape.
#[verifier::external_body]
pub(crate) fn json_choices_text(doc: &str) -> (r: Option<String>)
    ensures
        r is Some <==> choices_text_of(doc@) is Some,
        r matches Some(s) ==> s@ == choices_text_of(doc@).unwrap(),
{
    match serde_json::from_str::<serde_json::Value>(doc) {
        Ok(v) => v
            .get("choices")
            .and_then(|c| c.get(0))
            .and_then(|c0| c0.get("text"))
            .and_then(|t| t.as_str())
            .map(|s| s.to_string()),
        Err(_) => None,
    }
}

} // verus!
