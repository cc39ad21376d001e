//! JSON by way of `serde_json`: the trusted boundary.
//!
//! A `serde_json::Value` is opaque to the verifier. What the library knows of
//! one is its compact text, `json_text`; every contract below is stated over
//! that text, so callers reason about plain character sequences only.

use vstd::prelude::*;
use crate::literal::string_literal_text;

verus! {

/// Makes `serde_json::Value` known to the verifier, as a value that it cannot
/// look into.
#[verifier::external_type_specification]
#[verifier::external_body]
pub struct ExJsonValue(serde_json::Value);

/// What a value holds: its JSON text in compact form, which is what its
/// `Display` impl writes.
pub uninterp spec fn json_text(value: serde_json::Value) -> Seq<char>;

/// The compact text of the JSON document that `bytes` spell, or `None` where
/// `bytes` are not exactly one JSON document that `serde_json` takes: it
/// refuses, among others, one that is nested deeper than 128 levels.
pub uninterp spec fn document_text(bytes: Seq<u8>) -> Option<Seq<char>>;

/// The compact text of the member named `key` in the JSON object written as
/// `document`; `None` where `document` is not an object or has no such member.
pub uninterp spec fn member_text(document: Seq<char>, key: Seq<char>) -> Option<Seq<char>>;

/// The compact text of the JSON object built by inserting `members` in order,
/// each value as a JSON string: a later pair replaces an earlier one of the
/// same name, and the members are written in the order in which `serde_json`
/// keeps them, which is the order of their names unless it is built to keep
/// the order of insertion.
pub uninterp spec fn string_object_text(members: Seq<(Seq<char>, Seq<char>)>) -> Seq<char>;

/// `serde_json::from_slice`, read as a `Value`. Trusted: parsing depends on
/// the bytes alone, so the outcome is the named `document_text` of them; a
/// parse error of any kind is reported as `None`.
#[verifier::external_body]
pub(crate) fn parse_document(bytes: &[u8]) -> (parsed: Option<serde_json::Value>)
    ensures
        match parsed {
            Some(value) => document_text(bytes@) == Some(json_text(value)),
            None => document_text(bytes@) is None,
        },
{
    serde_json::from_slice(bytes).ok()
}

/// `serde_json::Value::get` with a string index. Trusted: the member found,
/// if any, depends on the value and the key alone, so its text is the named
/// `member_text` of the value's text and the key.
#[verifier::external_body]
pub(crate) fn member<'a>(value: &'a serde_json::Value, key: &str) -> (found: Option<
    &'a serde_json::Value,
>)
    ensures
        match found {
            Some(inner) => member_text(json_text(*value), key@) == Some(json_text(*inner)),
            None => member_text(json_text(*value), key@) is None,
        },
{
    value.get(key)
}

/// `Display for serde_json::Value`, through `to_string`. Trusted: the text
/// written is the value's `json_text`.
#[verifier::external_body]
pub(crate) fn render(value: &serde_json::Value) -> (text: String)
    ensures
        text@ == json_text(*value),
{
    value.to_string()
}

/// `serde_json::Value::from` a string slice. Trusted: the text of the value
/// made is the string as a literal, between double quotes and escaped as
/// `string_literal_text` says, which is how `serde_json` writes a string.
#[verifier::external_body]
pub(crate) fn string_value(s: &str) -> (value: serde_json::Value)
    ensures
        json_text(value) == string_literal_text(s@),
{
    serde_json::Value::from(s)
}

/// `serde_json::Map::from_iter` over `(name, string value)` pairs, wrapped as
/// an object. Trusted: the text of the object made is the named
/// `string_object_text` of the pairs.
#[verifier::external_body]
pub(crate) fn string_object(members: &Vec<(String, String)>) -> (value: serde_json::Value)
    ensures
        json_text(value) == string_object_text(members.deep_view()),
{
    serde_json::Value::Object(
        members.iter().map(|m| (m.0.clone(), serde_json::Value::String(m.1.clone()))).collect(),
    )
}

/// The JSON string literal for `s`.
pub fn quote(s: &str) -> (text: String)
    ensures
        text@ == string_literal_text(s@),
{
    render(&string_value(s))
}

} // verus!
