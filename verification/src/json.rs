//! The JSON values that a page carries, and their pretty-printed text.
//!
//! Everything here is taken on trust from `serde_json`. Its values are opaque
//! to the verifier, and what its functions return is known by name only: the
//! contracts say that the same arguments give the same result, and what that
//! result is they leave to the crate.

use serde::Serializer;
use serde_json::Value;
use vstd::prelude::*;

verus! {

/// `serde_json::Value`, any JSON value. Nothing inside it is visible here.
#[verifier::external_type_specification]
#[verifier::external_body]
pub struct ExValue(serde_json::Value);

/// `serde_json::Error`, the reason why a value could not be written or read
/// as JSON. Nothing inside it is visible here.
#[verifier::external_type_specification]
#[verifier::external_body]
pub struct ExError(serde_json::Error);

/// What `Value::from` gives for a string slice with the characters `s`: the
/// JSON string that holds them.
pub uninterp spec fn string_value(s: Seq<char>) -> Value;

/// What `Value::from` gives for an optional string: the JSON string that
/// holds the characters of `s`, or JSON `null` where `s` is `None`.
pub uninterp spec fn optional_string_value(s: Option<Seq<char>>) -> Value;

/// What `serde_json`'s pretty serializer writes for the JSON object with
/// these members, in this order; `None` where it fails.
pub uninterp spec fn pretty_object_text(members: Seq<(Seq<char>, Value)>) -> Option<Seq<char>>;

/// The members of an object as the contracts speak of them: each name by its
/// characters, each value as it is.
pub open spec fn member_views(members: Seq<(&str, &Value)>) -> Seq<(Seq<char>, Value)> {
    members.map_values(|m: (&str, &Value)| (m.0@, *m.1))
}

/// Calls `<serde_json::Value as From<&str>>::from`. Taken on trust: the value
/// it gives depends on the characters of `s` alone.
#[verifier::external_body]
pub(crate) fn json_string(s: &str) -> (v: Value)
    ensures
        v == string_value(s@),
{
    Value::from(s)
}

/// Calls `<serde_json::Value as From<Option<String>>>::from`. Taken on trust:
/// the value it gives depends alone on whether `s` holds a string, and on
/// that string's characters.
#[verifier::external_body]
pub(crate) fn json_optional_string(s: &Option<String>) -> (v: Value)
    ensures
        v == optional_string_value(s.deep_view()),
{
    Value::from(s.clone())
}

/// Calls `serde::Serializer::collect_map` on `serde_json::Serializer::pretty`,
/// which writes the members as one JSON object, in the order given. Taken on
/// trust: whether it succeeds, and the text it then gives, depend on the
/// names and values of the members alone.
#[verifier::external_body]
pub(crate) fn pretty_object(members: &Vec<(&str, &Value)>) -> (r: Result<String, serde_json::Error>)
    ensures
        r matches Ok(text) ==> pretty_object_text(member_views(members@)) == Some(text@),
        r is Err ==> pretty_object_text(member_views(members@)) is None,
{
    let mut out = Vec::new();
    serde_json::Serializer::pretty(&mut out).collect_map(members.iter().copied())?;
    String::from_utf8(out).map_err(serde::ser::Error::custom)
}

} // verus!
