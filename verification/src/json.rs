//! The JSON payloads that feeds deliver, carried as `serde_json::Value`.
//!
//! A payload is opaque to the proofs. Each reader below is a single call into
//! `serde_json`, and what it returns is given a name so that the extraction
//! rules built on top can be stated exactly.
use vstd::prelude::*;

verus! {

#[verifier::external_type_specification]
#[verifier::external_body]
pub struct ExJsonValue(serde_json::Value);

/// The member stored under `key` when the payload is an object holding it.
pub uninterp spec fn json_member(v: serde_json::Value, key: Seq<char>) -> Option<serde_json::Value>;

/// The text of a payload that is a JSON string.
pub uninterp spec fn json_text(v: serde_json::Value) -> Option<Seq<char>>;

/// Whether the payload is a JSON number.
pub uninterp spec fn json_is_number(v: serde_json::Value) -> bool;

/// The compact JSON rendering of the payload.
pub uninterp spec fn json_rendered(v: serde_json::Value) -> Seq<char>;

/// The payload as a signed 64-bit integer, when it is a number that fits one.
pub uninterp spec fn json_integer(v: serde_json::Value) -> Option<i64>;

/// The elements of a payload that is a JSON array.
pub uninterp spec fn json_elements(v: serde_json::Value) -> Option<Seq<serde_json::Value>>;

/// Whether the payload is a JSON object.
pub uninterp spec fn json_is_object(v: serde_json::Value) -> bool;

/// `serde_json::Value::get` with a string key: the member under `key`, or
/// nothing when the payload is no object or lacks the key.
#[verifier::external_body]
pub(crate) fn member<'a>(v: &'a serde_json::Value, key: &str) -> (r: Option<&'a serde_json::Value>)
    ensures
        match r {
            Some(x) => json_member(*v, key@) == Some(*x),
            None => json_member(*v, key@).is_none(),
        },
{
    v.get(key)
}

/// `serde_json::Value::as_str`: the text of a JSON string, nothing for any
/// other kind of payload.
#[verifier::external_body]
pub(crate) fn text<'a>(v: &'a serde_json::Value) -> (r: Option<&'a str>)
    ensures
        match r {
            Some(s) => json_text(*v) == Some(s@),
            None => json_text(*v).is_none(),
        },
{
    v.as_str()
}

/// `serde_json::Value::is_number`.
#[verifier::external_body]
pub(crate) fn is_number(v: &serde_json::Value) -> (r: bool)
    ensures
        r == json_is_number(*v),
{
    v.is_number()
}

/// `serde_json::Value`'s `Display`, reached through `to_string`: the compact
/// JSON text of the payload.
#[verifier::external_body]
pub(crate) fn rendered(v: &serde_json::Value) -> (r: String)
    ensures
        r@ == json_rendered(*v),
{
    v.to_string()
}

/// `serde_json::Value::as_i64`.
#[verifier::external_body]
pub(crate) fn integer(v: &serde_json::Value) -> (r: Option<i64>)
    ensures
        r == json_integer(*v),
{
    v.as_i64()
}

/// `serde_json::Value::as_array`: the elements of a JSON array in order,
/// nothing for any other kind of payload.
#[verifier::external_body]
pub(crate) fn elements<'a>(v: &'a serde_json::Value) -> (r: Option<&'a Vec<serde_json::Value>>)
    ensures
        match r {
            Some(a) => json_elements(*v) == Some(a@),
            None => json_elements(*v).is_none(),
        },
{
    v.as_array()
}

/// `serde_json::Value::is_object`.
#[verifier::external_body]
pub(crate) fn is_object(v: &serde_json::Value) -> (r: bool)
    ensures
        r == json_is_object(*v),
{
    v.is_object()
}

/// `serde_json::Value`'s `Clone`: a deep copy, equal to the payload copied.
pub assume_specification[ <serde_json::Value as Clone>::clone ](v: &serde_json::Value) -> (r:
    serde_json::Value)
    ensures
        r == *v,
;

} // verus!
