//! The boundary to `serde_json`: parsing a document and reading a parsed value.
//!
//! A parsed value is opaque to the verifier. What the parser and the three
//! readers return is given a name each, and the contracts of the rest of the
//! crate are stated over these names.

use vstd::prelude::*;

verus! {

/// `serde_json::Value`, a parsed JSON document. Nothing inside it is known
/// here; it is read through the functions below.
#[verifier::external_type_specification]
#[verifier::external_body]
pub struct ExJsonValue(serde_json::Value);

/// The value that `serde_json::from_slice` reads from `text`, or `None` where
/// it reports an error.
pub uninterp spec fn json_parse(text: Seq<u8>) -> Option<serde_json::Value>;

/// The member of the object `value` under `key`; `None` where `value` is no
/// object or has no such member.
pub uninterp spec fn json_member(value: serde_json::Value, key: Seq<char>) -> Option<
    serde_json::Value,
>;

/// The elements of the array `value`, in order; `None` where `value` is no array.
pub uninterp spec fn json_elements(value: serde_json::Value) -> Option<Seq<serde_json::Value>>;

/// The characters of the string `value`; `None` where `value` is no string.
pub uninterp spec fn json_text(value: serde_json::Value) -> Option<Seq<char>>;

/// Calls `serde_json::from_slice` for a `serde_json::Value`. Trusted: the
/// result is the named parse of the bytes, `None` standing for every error
/// of the parser.
#[verifier::external_body]
pub(crate) fn parse(text: &[u8]) -> (r: Option<serde_json::Value>)
    ensures
        r == json_parse(text@),
{
    serde_json::from_slice::<serde_json::Value>(text).ok()
}

/// Calls `serde_json::Value::get` with a string key. Trusted: the result is
/// the named member of the value, by reference.
#[verifier::external_body]
pub(crate) fn member<'a>(value: &'a serde_json::Value, key: &str) -> (r: Option<
    &'a serde_json::Value,
>)
    ensures
        r matches Some(found) ==> json_member(*value, key@) == Some(*found),
        r is None ==> json_member(*value, key@) is None,
{
    value.get(key)
}

/// Calls `serde_json::Value::as_array`. Trusted: the result is the vector
/// whose view is the named sequence of elements.
#[verifier::external_body]
pub(crate) fn elements<'a>(value: &'a serde_json::Value) -> (r: Option<
    &'a Vec<serde_json::Value>,
>)
    ensures
        r matches Some(items) ==> json_elements(*value) == Some(items@),
        r is None ==> json_elements(*value) is None,
{
    value.as_array()
}

/// Calls `serde_json::Value::as_str`. Trusted: the result is the string slice
/// whose view is the named text.
#[verifier::external_body]
pub(crate) fn text<'a>(value: &'a serde_json::Value) -> (r: Option<&'a str>)
    ensures
        r matches Some(s) ==> json_text(*value) == Some(s@),
        r is None ==> json_text(*value) is None,
{
    value.as_str()
}

} // verus!
