//! Declares serde_json's Value type for use in signatures, and narrow
//! wrappers over JSON text.  The field readers carry named results, so that
//! contracts downstream can say exactly which request a given argument
//! text resolves to: parsing is a function of the text alone.

use vstd::prelude::*;

verus! {

#[verifier::external_type_specification]
#[verifier::external_body]
pub struct ExValue(serde_json::Value);

/// Relies on serde_json's Clone for Value; nothing is assumed of the copy.
pub assume_specification[ <serde_json::Value as core::clone::Clone>::clone ](
    v: &serde_json::Value,
) -> serde_json::Value;

/// Relies on serde_json::from_str::<Value>: parses JSON text, or returns
/// None when the text is not valid JSON.  Nothing is promised of the
/// parsed structure; this is for carrying schema values through.
#[verifier::external_body]
pub fn parse_json(s: &str) -> (r: Option<serde_json::Value>) {
    serde_json::from_str::<serde_json::Value>(s).ok()
}

/// Relies on serde_json's Value::Null variant: the null JSON value, used
/// where a schema cannot be parsed.
#[verifier::external_body]
pub fn json_null() -> (r: serde_json::Value) {
    serde_json::Value::Null
}

/// Whether a text parses as a JSON object; it depends on the text alone.
pub uninterp spec fn json_object_of(s: Seq<char>) -> bool;

/// Whether a JSON object text has the named top-level field; it depends on
/// the text and the key alone.
pub uninterp spec fn has_field_of(s: Seq<char>, key: Seq<char>) -> bool;

/// The string held by the named top-level field of a JSON object text, if
/// the field is there and holds a string; it depends on the text and the
/// key alone.
pub uninterp spec fn str_field_of(s: Seq<char>, key: Seq<char>) -> Option<Seq<char>>;

/// The unsigned integer held by the named top-level field, if the field is
/// there and holds a number that fits; it depends on the text and the key
/// alone.
pub uninterp spec fn u64_field_of(s: Seq<char>, key: Seq<char>) -> Option<u64>;

/// Relies on serde_json::from_str::<Value> and Value::is_object.
#[verifier::external_body]
pub fn json_object_text(s: &str) -> (r: bool)
    ensures
        r == json_object_of(s@),
{
    serde_json::from_str::<serde_json::Value>(s).map(|v| v.is_object()).unwrap_or(false)
}

/// Relies on serde_json::from_str::<Value> and Value::get.
#[verifier::external_body]
pub fn json_has_field(s: &str, key: &str) -> (r: bool)
    ensures
        r == has_field_of(s@, key@),
{
    serde_json::from_str::<serde_json::Value>(s)
        .ok()
        .is_some_and(|v| v.get(key).is_some())
}

/// Relies on serde_json::from_str::<Value>, Value::get and Value::as_str.
#[verifier::external_body]
pub fn json_str_field(s: &str, key: &str) -> (r: Option<String>)
    ensures
        r is Some <==> str_field_of(s@, key@) is Some,
        r matches Some(v) ==> str_field_of(s@, key@) matches Some(x) && v@ == x,
{
    serde_json::from_str::<serde_json::Value>(s)
        .ok()
        .and_then(|v| v.get(key).and_then(|f| f.as_str().map(|x| x.to_string())))
}

/// Relies on serde_json::from_str::<Value>, Value::get and Value::as_u64.
#[verifier::external_body]
pub fn json_u64_field(s: &str, key: &str) -> (r: Option<u64>)
    ensures
        r == u64_field_of(s@, key@),
{
    serde_json::from_str::<serde_json::Value>(s)
        .ok()
        .and_then(|v| v.get(key).and_then(|f| f.as_u64()))
}

} // verus!
