//! Reading a JSON document.
//!
//! A document is parsed by `serde_json` and stays a value of that crate.
//! What such a value holds is known here one level deep: its kind, and for a
//! string its characters, for an array its elements, for an object its
//! members.

use vstd::prelude::*;

verus! {

/// A parsed JSON value of `serde_json`, carried as an opaque value.
#[verifier::external_type_specification]
#[verifier::external_body]
pub struct ExValue(serde_json::Value);

/// What a JSON value holds.
pub enum Json {
    Null,
    Bool,
    Number,
    Text(Seq<char>),
    Array(Seq<serde_json::Value>),
    Object(Map<Seq<char>, serde_json::Value>),
}

/// What `value` holds.
pub uninterp spec fn held(value: serde_json::Value) -> Json;

/// The document that `bytes` are, or `None` where they are not JSON.
pub uninterp spec fn parsed(bytes: Seq<u8>) -> Option<serde_json::Value>;

/// The member of `value` under `key`, or `None` where `value` is no object
/// or has no such member.
pub open spec fn member(value: serde_json::Value, key: Seq<char>) -> Option<serde_json::Value> {
    match held(value) {
        Json::Object(members) => if members.contains_key(key) {
            Some(members[key])
        } else {
            None
        },
        _ => None,
    }
}

/// The elements of `value`, or `None` where `value` is no array.
pub open spec fn elements(value: serde_json::Value) -> Option<Seq<serde_json::Value>> {
    match held(value) {
        Json::Array(items) => Some(items),
        _ => None,
    }
}

/// The characters of `value`, or `None` where `value` is no string.
pub open spec fn string_value(value: serde_json::Value) -> Option<Seq<char>> {
    match held(value) {
        Json::Text(text) => Some(text),
        _ => None,
    }
}

/// Calls `serde_json::from_slice` for a `Value`.
///
/// Trusted: whether the call succeeds, and with which value, depends on the
/// bytes alone; `parsed` names that outcome.
#[verifier::external_body]
pub(crate) fn parse_bytes(bytes: &[u8]) -> (value: Result<serde_json::Value, serde_json::Error>)
    ensures
        value matches Ok(v) ==> parsed(bytes@) == Some(v),
        value is Err ==> parsed(bytes@) is None,
{
    serde_json::from_slice(bytes)
}

/// Calls `Value::get` with a string key.
///
/// Trusted: on an object that has a member under the key the result is
/// that member; on every other value, and for every other key, it is
/// `None`.
#[verifier::external_body]
pub(crate) fn get<'a>(value: &'a serde_json::Value, key: &str) -> (found: Option<&'a serde_json::Value>)
    ensures
        found matches Some(v) ==> held(*value) matches Json::Object(members)
            && members.contains_key(key@) && members[key@] == *v,
        found is None ==> !(held(*value) matches Json::Object(members) && members.contains_key(
            key@,
        )),
{
    value.get(key)
}

/// Calls `Value::as_array`.
///
/// Trusted: on an array the result is its elements; on every other value
/// it is `None`.
#[verifier::external_body]
pub(crate) fn as_array(value: &serde_json::Value) -> (items: Option<&Vec<serde_json::Value>>)
    ensures
        items matches Some(v) ==> held(*value) == Json::Array(v@),
        items is None ==> !(held(*value) is Array),
{
    value.as_array()
}

/// Calls `Value::as_str`.
///
/// Trusted: on a string the result is its text; on every other value it is
/// `None`.
#[verifier::external_body]
pub(crate) fn as_str(value: &serde_json::Value) -> (text: Option<&str>)
    ensures
        text matches Some(s) ==> held(*value) == Json::Text(s@),
        text is None ==> !(held(*value) is Text),
{
    value.as_str()
}

/// Calls `Value::is_null`.
///
/// Trusted: the result says whether the value is `null`.
#[verifier::external_body]
pub(crate) fn is_null(value: &serde_json::Value) -> (null: bool)
    ensures
        null == (held(*value) is Null),
{
    value.is_null()
}

/// Calls `Value::is_object`.
///
/// Trusted: the result says whether the value is an object.
#[verifier::external_body]
pub(crate) fn is_object(value: &serde_json::Value) -> (object: bool)
    ensures
        object == (held(*value) is Object),
{
    value.is_object()
}

} // verus!
