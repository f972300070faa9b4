//! JSON documents, as `serde_json` parses them.
//!
//! Nothing in this module is proved: each item states what the rest of the
//! library takes on trust about the `serde_json` crate.

use vstd::prelude::*;

verus! {

#[verifier::external_type_specification]
#[verifier::external_body]
pub struct ExValue(serde_json::Value);

#[verifier::external_type_specification]
#[verifier::external_body]
pub struct ExJsonError(serde_json::Error);

/// A JSON value as a mathematical value, as far as the library reads it: of
/// a number, only whether it is an integer from 0 to `u64::MAX`, and then
/// which.
pub enum Json {
    Null,
    Bool(bool),
    /// An integer from 0 to `u64::MAX`.
    Unsigned(u64),
    /// A number that is negative, fractional or larger.
    OtherNumber,
    Text(Seq<char>),
    Array(Seq<Json>),
    Object(Map<Seq<char>, Json>),
}

impl Json {
    /// The member `key` of an object; `None` where this is no object or it
    /// has no such member.
    pub open spec fn member(self, key: Seq<char>) -> Option<Json> {
        match self {
            Json::Object(members) if members.contains_key(key) => Some(members[key]),
            _ => None,
        }
    }

    /// The element `i` of an array; `None` where this is no array or it has
    /// no such element.
    pub open spec fn element(self, i: int) -> Option<Json> {
        match self {
            Json::Array(elements) if 0 <= i < elements.len() => Some(elements[i]),
            _ => None,
        }
    }

    /// This is an array.
    pub open spec fn is_array(self) -> bool {
        self is Array
    }

    /// The value of an integer from 0 to `u64::MAX`; `None` for anything
    /// else.
    pub open spec fn unsigned(self) -> Option<u64> {
        match self {
            Json::Unsigned(n) => Some(n),
            _ => None,
        }
    }

    /// The characters of a string; `None` for anything else.
    pub open spec fn text(self) -> Option<Seq<char>> {
        match self {
            Json::Text(s) => Some(s),
            _ => None,
        }
    }
}

/// What a `serde_json::Value` holds.
pub uninterp spec fn json_model(v: serde_json::Value) -> Json;

/// The document that `serde_json::from_str` reads from `text`; `None` where
/// it rejects the text.
pub uninterp spec fn json_parsed(text: Seq<char>) -> Option<Json>;

/// Calls `serde_json::from_str` for a `Value`. Trusted: the call succeeds
/// exactly where `json_parsed` is defined, and the value then holds that
/// document.
#[verifier::external_body]
pub(crate) fn parse_json(text: &str) -> (r: Result<serde_json::Value, serde_json::Error>)
    ensures
        match r {
            Ok(v) => json_parsed(text@) == Some(json_model(v)),
            Err(_) => json_parsed(text@) is None,
        },
{
    serde_json::from_str::<serde_json::Value>(text)
}

/// Calls `Value::get` with a string index. Trusted: it returns the member of
/// that name where the value is an object that has one, and `None`
/// otherwise.
#[verifier::external_body]
pub(crate) fn json_member<'a>(v: &'a serde_json::Value, key: &str) -> (r: Option<
    &'a serde_json::Value,
>)
    ensures
        match r {
            Some(m) => json_model(*v).member(key@) == Some(json_model(*m)),
            None => json_model(*v).member(key@) is None,
        },
{
    v.get(key)
}

/// Calls `Value::get` with a number index. Trusted: it returns the element
/// at that index where the value is an array that has one, and `None`
/// otherwise.
#[verifier::external_body]
pub(crate) fn json_element<'a>(v: &'a serde_json::Value, i: usize) -> (r: Option<
    &'a serde_json::Value,
>)
    ensures
        match r {
            Some(e) => json_model(*v).element(i as int) == Some(json_model(*e)),
            None => json_model(*v).element(i as int) is None,
        },
{
    v.get(i)
}

/// Calls `Value::is_array`. Trusted: it tells whether the value is an array.
#[verifier::external_body]
pub(crate) fn json_is_array(v: &serde_json::Value) -> (r: bool)
    ensures
        r == json_model(*v).is_array(),
{
    v.is_array()
}

/// Calls `Value::as_u64`. Trusted: it returns the number where the value is
/// an integer from 0 to `u64::MAX`, and `None` otherwise.
#[verifier::external_body]
pub(crate) fn json_unsigned(v: &serde_json::Value) -> (r: Option<u64>)
    ensures
        r == json_model(*v).unsigned(),
{
    v.as_u64()
}

/// Calls `Value::as_str`. Trusted: it returns the string where the value is
/// one, and `None` otherwise.
#[verifier::external_body]
pub(crate) fn json_text<'a>(v: &'a serde_json::Value) -> (r: Option<&'a str>)
    ensures
        match r {
            Some(s) => json_model(*v).text() == Some(s@),
            None => json_model(*v).text() is None,
        },
{
    v.as_str()
}

/// Calls `to_string` on a `serde_json::Error`: the text that the crate gives
/// for the failure. Nothing is claimed of it.
#[verifier::external_body]
pub(crate) fn json_error_text(e: &serde_json::Error) -> (text: String) {
    e.to_string()
}

} // verus!
