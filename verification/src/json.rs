//! JSON values, as far as this library looks into them.
use vstd::prelude::*;

verus! {

/// `serde_json::Value` is opaque here: it is carried, and read through the
/// functions of this module.
#[verifier::external_type_specification]
#[verifier::external_body]
pub struct ExValue(serde_json::Value);

/// `serde_json::Error` is opaque here.
#[verifier::external_type_specification]
#[verifier::external_body]
pub struct ExError(serde_json::Error);

/// The contents of a JSON value: the compact JSON text that its `Display` writes.
pub uninterp spec fn json_text(value: serde_json::Value) -> Seq<char>;

/// The characters of a JSON string; `None` for a value of any other kind.
pub uninterp spec fn json_str(value: serde_json::Value) -> Option<Seq<char>>;

/// The compact text of the JSON value that `text` denotes; `None` if
/// `serde_json` does not accept `text`.
pub uninterp spec fn json_parsed(text: Seq<char>) -> Option<Seq<char>>;

/// Calls `to_string` of `serde_json::Value`, which formats through `Display`.
/// The result is a function of the value alone and is named `json_text`.
#[verifier::external_body]
pub(crate) fn value_text(value: &serde_json::Value) -> (r: String)
    ensures
        r@ == json_text(*value),
{
    value.to_string()
}

/// Calls `serde_json::Value::as_str`, which gives the characters of a string
/// and `None` for every other kind of value. The result is a function of the
/// value alone and is named `json_str`.
#[verifier::external_body]
pub(crate) fn value_str(value: &serde_json::Value) -> (r: Option<&str>)
    ensures
        r is Some == json_str(*value) is Some,
        r is Some ==> r->0@ == json_str(*value)->0,
{
    value.as_str()
}

/// Calls `serde_json::from_str` for a `serde_json::Value`. Whether it succeeds,
/// and the value that it gives, depend on the text alone; the value, taken by
/// its compact text, is named `json_parsed`.
#[verifier::external_body]
pub(crate) fn parse_value(text: &str) -> (r: Result<serde_json::Value, serde_json::Error>)
    ensures
        match r {
            Ok(value) => json_parsed(text@) == Some(json_text(value)),
            Err(_) => json_parsed(text@) is None,
        },
{
    serde_json::from_str(text)
}

} // verus!
