//! The JSON values that the bridges exchange, as far as the core reads them.
//!
//! Values are parsed and held by `serde_json`; the core looks at members
//! and strings only, through the functions declared here.

use vstd::prelude::*;

verus! {

/// `serde_json::Value`, any JSON value, held without looking inside.
#[verifier::external_type_specification]
#[verifier::external_body]
pub struct ExJsonValue(serde_json::Value);

/// `serde_json::Error`, the reason why a text is no JSON, held without
/// looking inside.
#[verifier::external_type_specification]
#[verifier::external_body]
pub struct ExJsonError(serde_json::Error);

/// What `serde_json::Value::get` yields for a string key: the member under
/// that key if the value is an object that has one.
pub uninterp spec fn json_member(value: serde_json::Value, key: Seq<char>) -> Option<
    serde_json::Value,
>;

/// What `serde_json::Value::as_str` yields: the text if the value is a JSON
/// string.
pub uninterp spec fn json_text(value: serde_json::Value) -> Option<Seq<char>>;

/// The text of an optional value, if it is there and is a JSON string.
pub open spec fn json_opt_text(value: Option<serde_json::Value>) -> Option<Seq<char>> {
    match value {
        Some(v) => json_text(v),
        None => None,
    }
}

/// What `serde_json::from_str` makes of a text: the value that the text
/// writes, if it is JSON.
pub uninterp spec fn json_parsed(text: Seq<char>) -> Option<serde_json::Value>;

/// `serde_json::from_str` parses a text into a value, or reports why the
/// text is no JSON. The value is named, not described; nothing is claimed
/// of the error.
#[verifier::external_body]
pub(crate) fn parse(text: &str) -> (r: Result<serde_json::Value, serde_json::Error>)
    ensures
        r is Ok == json_parsed(text@) is Some,
        r is Ok ==> r->Ok_0 == json_parsed(text@)->0,
{
    serde_json::from_str(text)
}

/// `serde_json::Value::get` with a string key looks a member up. The result
/// is named, not described.
#[verifier::external_body]
pub(crate) fn member<'a>(value: &'a serde_json::Value, key: &str) -> (r: Option<
    &'a serde_json::Value,
>)
    ensures
        r is Some == json_member(*value, key@) is Some,
        r is Some ==> *r->0 == json_member(*value, key@)->0,
{
    value.get(key)
}

/// `serde_json::Value::as_str` gives the text of a JSON string. The result
/// is named, not described.
#[verifier::external_body]
pub(crate) fn as_text<'a>(value: &'a serde_json::Value) -> (r: Option<&'a str>)
    ensures
        r is Some == json_text(*value) is Some,
        r is Some ==> r->0@ == json_text(*value)->0,
{
    value.as_str()
}

/// `Clone::clone` of a `serde_json::Value` copies the value.
#[verifier::external_body]
pub(crate) fn duplicate(value: &serde_json::Value) -> (r: serde_json::Value)
    ensures
        r == *value,
{
    value.clone()
}

/// `serde_json::Value::Object` around `serde_json::Map::new`: an object
/// without members, which is no string.
#[verifier::external_body]
pub(crate) fn empty_object() -> (r: serde_json::Value)
    ensures
        forall|key: Seq<char>| #[trigger] json_member(r, key) is None,
        json_text(r) is None,
{
    serde_json::Value::Object(serde_json::Map::new())
}

/// The `Display` text of a `serde_json::Error`. Nothing is claimed of the
/// text.
#[verifier::external_body]
pub(crate) fn error_text(error: &serde_json::Error) -> String {
    error.to_string()
}

/// Reads the member under `key` as text; absent members and members that
/// are no strings read as `None`.
pub fn text_member(value: &serde_json::Value, key: &str) -> (r: Option<String>)
    ensures
        crate::text::opt_text(r) == json_opt_text(json_member(*value, key@)),
{
    match member(value, key) {
        Some(m) => match as_text(m) {
            Some(s) => Some(s.to_owned()),
            None => None,
        },
        None => None,
    }
}

} // verus!
