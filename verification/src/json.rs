//! Reading a JSON value of `serde_json`.
//!
//! A `Value` is opaque here. What the library reads from one is named by the
//! functions below, and the library's contracts are stated over those names.

use serde_json::Value;
use vstd::prelude::*;

verus! {

#[verifier::external_type_specification]
#[verifier::external_body]
pub struct ExValue(Value);

/// What `json[key]` is: the member of an object under `key`, and the null
/// value where `json` is no object or has no such member.
pub uninterp spec fn json_member(json: Value, key: Seq<char>) -> Value;

/// The text that a JSON string holds; `None` for any other value.
pub uninterp spec fn json_text(json: Value) -> Option<Seq<char>>;

/// Whether `json` is an object with a member under `key`.
pub uninterp spec fn json_has_member(json: Value, key: Seq<char>) -> bool;

/// The elements of a JSON array in order; `None` for any other value.
pub uninterp spec fn json_elements(json: Value) -> Option<Seq<Value>>;

/// The compact JSON text of a value, as `serde_json` prints it.
pub uninterp spec fn json_rendering(json: Value) -> Seq<char>;

/// Calls the `Index<&str>` impl of `serde_json::Value`, which never panics.
/// Trusted: the value handed back is what `json_member` names.
#[verifier::external_body]
pub(crate) fn member<'a>(json: &'a Value, key: &str) -> (found: &'a Value)
    ensures
        *found == json_member(*json, key@),
{
    &json[key]
}

/// Calls `serde_json::Value::as_str`. Trusted: the text handed back is what
/// `json_text` names.
#[verifier::external_body]
pub(crate) fn text_of<'a>(json: &'a Value) -> (text: Option<&'a str>)
    ensures
        json_text(*json) == match text {
            Some(t) => Some(t@),
            None => None,
        },
{
    json.as_str()
}

/// Calls `serde_json::Value::get` with a key and tells whether it found a
/// member. Trusted: the answer is what `json_has_member` names.
#[verifier::external_body]
pub(crate) fn has_member(json: &Value, key: &str) -> (found: bool)
    ensures
        found == json_has_member(*json, key@),
{
    json.get(key).is_some()
}

/// Calls `serde_json::Value::as_array`. Trusted: the vector handed back
/// holds what `json_elements` names.
#[verifier::external_body]
pub(crate) fn elements_of<'a>(json: &'a Value) -> (elements: Option<&'a Vec<Value>>)
    ensures
        json_elements(*json) == match elements {
            Some(v) => Some(v@),
            None => None,
        },
{
    json.as_array()
}

/// Calls the `Display` impl of `serde_json::Value` through `to_string`.
/// Trusted: the text is what `json_rendering` names.
#[verifier::external_body]
pub(crate) fn render(json: &Value) -> (text: String)
    ensures
        text@ == json_rendering(*json),
{
    json.to_string()
}

} // verus!
