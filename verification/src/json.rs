//! Trusted extraction of string fields from JSON response bodies.
//!
//! Every response of the provider that the flow reads is a JSON object whose
//! interesting values are strings, so this is the whole JSON surface the
//! library needs: whether a body is a JSON object, and the string value at a
//! given key.

use vstd::prelude::*;
use std::collections::HashMap;

verus! {

/// Whether the body parses as a JSON object.
pub uninterp spec fn spec_json_is_object(body: Seq<char>) -> bool;

/// The string value at `key` of the body parsed as JSON: present exactly when
/// the body is valid JSON whose top level is an object holding `key` with a
/// string value.
pub uninterp spec fn spec_json_string_field(body: Seq<char>, key: Seq<char>) -> Option<Seq<char>>;

/// Relies on serde_json::from_str: whether the body parses as a JSON object.
#[verifier::external_body]
pub(crate) fn json_is_object(body: &str) -> (r: bool)
    ensures
        r == spec_json_is_object(body@),
{
    serde_json::from_str::<HashMap<String, serde_json::Value>>(body).is_ok()
}

/// Relies on serde_json::from_str, serde_json::Value::get and
/// serde_json::Value::as_str: the string value at `key` of the body parsed as
/// a JSON document, or nothing when the body does not parse, the key is
/// absent, or its value is not a string.
#[verifier::external_body]
pub(crate) fn json_string_field(body: &str, key: &str) -> (r: Option<String>)
    ensures
        r is Some <==> spec_json_string_field(body@, key@) is Some,
        r matches Some(s) ==> spec_json_string_field(body@, key@) == Some(s@),
{
    match serde_json::from_str::<serde_json::Value>(body) {
        Ok(value) => match value.get(key) {
            Some(field) => match field.as_str() {
                Some(s) => Some(s.to_owned()),
                None => None,
            },
            None => None,
        },
        Err(_) => None,
    }
}

} // verus!
