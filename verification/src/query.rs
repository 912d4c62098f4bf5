//! Query and state values carried through navigation. A query is a structured
//! JSON value; the history layer turns it into a URL-encoded query string and
//! reports the values it cannot encode.

use vstd::prelude::*;

verus! {

#[verifier::external_type_specification]
#[verifier::external_body]
pub struct ExValue(serde_json::Value);

/// Whether a JSON value is the null value, as `serde_json::Value::is_null`
/// reports it.
pub uninterp spec fn value_is_null(v: serde_json::Value) -> bool;

/// Relies on serde_json::Value::is_null: true exactly on the null value.
pub assume_specification[ serde_json::Value::is_null ](v: &serde_json::Value) -> (r: bool)
    ensures
        r == value_is_null(*v),
;

/// Relies on serde_json's Default for Value: the default value is null.
pub assume_specification[ <serde_json::Value as Default>::default ]() -> (r: serde_json::Value)
    ensures
        value_is_null(r),
;

/// Relies on serde_json's Clone for Value: the clone equals its source.
pub assume_specification[ <serde_json::Value as Clone>::clone ](
    v: &serde_json::Value,
) -> (r: serde_json::Value)
    ensures
        r == *v,
;

/// The URL encoding of a JSON query value, where one exists: the encoder
/// accepts maps of plain values and rejects everything else, and its output
/// depends on the value alone.
pub uninterp spec fn query_encoding(q: serde_json::Value) -> Option<Seq<char>>;

/// Relies on serde_urlencoded::to_string: it encodes a value as an
/// `application/x-www-form-urlencoded` string, fails exactly on values that
/// the format cannot hold, and depends on the value alone.
#[verifier::external_body]
pub fn encode_query(query: &serde_json::Value) -> (r: Result<String, String>)
    ensures
        match r {
            Ok(s) => query_encoding(*query) == Some(s@),
            Err(_) => query_encoding(*query) is None,
        },
{
    match serde_urlencoded::to_string(query) {
        Ok(s) => Ok(s),
        Err(e) => Err(e.to_string()),
    }
}

} // verus!
