//! JSON documents, read with `serde_json`.
//!
//! A document is opaque to the verifier. What `serde_json` finds in one
//! is given a name here, and each of the functions below is believed to
//! return what its name stands for; nothing else is assumed of them.

use vstd::prelude::*;

verus! {

/// `serde_json::Value`: one JSON value, carried through as it is.
#[verifier::external_type_specification]
#[verifier::external_body]
pub struct ExJsonValue(serde_json::Value);

/// `serde_json::Error`: why a text is no JSON document.
#[verifier::external_type_specification]
#[verifier::external_body]
pub struct ExJsonError(serde_json::Error);

/// The document that `serde_json::from_slice` reads from `text`; `None`
/// where it reports an error.
pub uninterp spec fn json_document(text: Seq<u8>) -> Option<serde_json::Value>;

/// What indexing `value` with `key` gives: the member of that name where
/// `value` is an object that has one, and the null value otherwise.
pub uninterp spec fn json_member(value: serde_json::Value, key: Seq<char>) -> serde_json::Value;

/// The text of `value` where it is a JSON string, as
/// `serde_json::Value::as_str` gives it.
pub uninterp spec fn json_text(value: serde_json::Value) -> Option<Seq<char>>;

/// The number that `serde_json::Value::as_u64` finds in `value`.
pub uninterp spec fn json_u64(value: serde_json::Value) -> Option<u64>;

/// The number that `serde_json::Value::as_i64` finds in `value`.
pub uninterp spec fn json_i64(value: serde_json::Value) -> Option<i64>;

/// Reads `text` as one JSON document.
///
/// Calls `serde_json::from_slice` for a `serde_json::Value`. The contract
/// claims only that the result is a function of the bytes: the document,
/// or the fact that there is none, is what `json_document` names.
#[verifier::external_body]
pub(crate) fn parse_document(text: &[u8]) -> (parsed: Result<serde_json::Value, serde_json::Error>)
    ensures
        match parsed {
            Ok(document) => json_document(text@) == Some(document),
            Err(_) => json_document(text@) is None,
        },
{
    serde_json::from_slice(text)
}

/// The member `key` of `value`.
///
/// Indexes a `serde_json::Value` with a string, which never panics on a
/// shared reference: where there is no such member the shared null value
/// comes back. The contract claims only that the result is a function of
/// the value and the key, named `json_member`.
#[verifier::external_body]
pub(crate) fn member<'a>(value: &'a serde_json::Value, key: &str) -> (found: &'a serde_json::Value)
    ensures
        *found == json_member(*value, key@),
{
    &value[key]
}

/// `serde_json::Value::as_str` returns the text of a JSON string and
/// `None` for every other value: claimed here is that the result is the
/// function of the value that `json_text` names.
pub assume_specification<'a>[ serde_json::Value::as_str ](value: &'a serde_json::Value) -> (text:
    Option<&'a str>)
    ensures
        match text {
            Some(s) => json_text(*value) == Some(s@),
            None => json_text(*value) is None,
        },
;

/// `serde_json::Value::as_u64` returns the number where the value is an
/// integer that fits `u64`, and `None` otherwise: claimed here is that the
/// result is the function of the value that `json_u64` names.
pub assume_specification[ serde_json::Value::as_u64 ](value: &serde_json::Value) -> (number:
    Option<u64>)
    ensures
        number == json_u64(*value),
;

/// `serde_json::Value::as_i64` returns the number where the value is an
/// integer that fits `i64`, and `None` otherwise: claimed here is that the
/// result is the function of the value that `json_i64` names.
pub assume_specification[ serde_json::Value::as_i64 ](value: &serde_json::Value) -> (number:
    Option<i64>)
    ensures
        number == json_i64(*value),
;

} // verus!
