//! JSON documents, read by `serde_json`.
//!
//! A document is modelled by `Json`. Nothing in this file is proved: each
//! function hands one call on to `serde_json`, and its contract says over the
//! model what that call returns.

use vstd::prelude::*;

verus! {

/// A JSON value.
pub enum Json {
    Null,
    Bool(bool),
    /// A number that is held as a `u64`: one written without sign, fraction
    /// or exponent, and less than 2^64.
    Unsigned(u64),
    /// Any other number.
    Number,
    Text(Seq<char>),
    List(Seq<Json>),
    Object(Map<Seq<char>, Json>),
}

impl Json {
    /// The member `key` of an object; null where the value has no such
    /// member or is no object.
    pub open spec fn member(self, key: Seq<char>) -> Json {
        match self {
            Json::Object(members) => if members.dom().contains(key) {
                members[key]
            } else {
                Json::Null
            },
            _ => Json::Null,
        }
    }

    /// The number, where the value is one that is held as a `u64`.
    pub open spec fn as_u64(self) -> Option<u64> {
        match self {
            Json::Unsigned(n) => Some(n),
            _ => None,
        }
    }

    /// The text, where the value is a string.
    pub open spec fn as_text(self) -> Option<Seq<char>> {
        match self {
            Json::Text(s) => Some(s),
            _ => None,
        }
    }
}

/// Declares `serde_json::Value`, whose inside the proofs do not see.
#[verifier::external_type_specification]
#[verifier::external_body]
pub struct ExJsonValue(serde_json::Value);

/// What a `serde_json::Value` holds: the JSON value it stands for.
pub uninterp spec fn json_model(value: serde_json::Value) -> Json;

/// The document that `serde_json::from_slice` reads from `bytes`; `None`
/// where it reports an error.
pub uninterp spec fn json_parsed(bytes: Seq<u8>) -> Option<Json>;

/// Calls `serde_json::from_slice` for a `serde_json::Value`. The contract
/// claims that what comes of it depends on the bytes alone.
#[verifier::external_body]
pub(crate) fn parse(bytes: &[u8]) -> (r: Option<serde_json::Value>)
    ensures
        match r {
            Some(value) => json_parsed(bytes@) == Some(json_model(value)),
            None => json_parsed(bytes@) is None,
        },
{
    serde_json::from_slice::<serde_json::Value>(bytes).ok()
}

/// Indexes a `serde_json::Value` with a string. That gives the member of
/// that name where the value is an object that has one, and null otherwise;
/// it never fails.
#[verifier::external_body]
pub(crate) fn member<'a>(value: &'a serde_json::Value, key: &str) -> (r: &'a serde_json::Value)
    ensures
        json_model(*r) == json_model(*value).member(key@),
{
    &value[key]
}

/// Calls `serde_json::Value::as_u64`, which gives the number where the value
/// is a number that was read as a `u64`.
#[verifier::external_body]
pub(crate) fn as_u64(value: &serde_json::Value) -> (r: Option<u64>)
    ensures
        r == json_model(*value).as_u64(),
{
    value.as_u64()
}

/// Calls `serde_json::Value::as_str`, which gives the text where the value
/// is a string, and copies it.
#[verifier::external_body]
pub(crate) fn as_text(value: &serde_json::Value) -> (r: Option<String>)
    ensures
        match r {
            Some(s) => json_model(*value).as_text() == Some(s@),
            None => json_model(*value).as_text() is None,
        },
{
    value.as_str().map(|s| s.to_owned())
}

} // verus!
