//! Trusted readers over JSON text.
//!
//! Every provider document and token segment reaches the crate as bytes.
//! These functions hand single members out as plain values; each result is
//! a function of the input bytes alone, named by an uninterpreted spec
//! function so that callers' contracts can be exact about composition.

use vstd::prelude::*;

verus! {

/// The string member `key` of the JSON object `body`, if `body` parses as
/// an object and that member is a string.
pub uninterp spec fn json_str(body: Seq<u8>, key: Seq<char>) -> Option<Seq<char>>;

/// The integer member `key` of the JSON object `body`, when it fits `i64`.
pub uninterp spec fn json_i64(body: Seq<u8>, key: Seq<char>) -> Option<i64>;

/// The member `key` of the JSON object `body` as an array of strings, if it
/// is an array whose elements are all strings.
pub uninterp spec fn json_str_list(body: Seq<u8>, key: Seq<char>) -> Option<Seq<Seq<char>>>;

/// The member `key` of the JSON object `body`, re-serialized as JSON bytes.
pub uninterp spec fn json_member(body: Seq<u8>, key: Seq<char>) -> Option<Seq<u8>>;

/// The elements of the array member `key` of the JSON object `body`, each
/// re-serialized as JSON bytes.
pub uninterp spec fn json_member_list(body: Seq<u8>, key: Seq<char>) -> Option<Seq<Seq<u8>>>;

/// Relies on serde_json: `from_str` parses the bytes, `Value::get` picks the
/// member, `Value::as_str` accepts exactly the string values.
#[verifier::external_body]
pub fn get_json_str(body: &[u8], key: &str) -> (r: Option<String>)
    ensures
        (r is Some) == (json_str(body@, key@) is Some),
        r matches Some(s) ==> json_str(body@, key@) == Some(s@),
{
    std::str::from_utf8(body).ok().and_then(|text| {
        serde_json::from_str::<serde_json::Value>(text).ok()
    }).and_then(|v| v.get(key).and_then(|m| m.as_str()).map(|s| s.to_string()))
}

/// Relies on serde_json: as `get_json_str`, with `Value::as_i64` accepting
/// exactly the integer numbers that fit `i64`.
#[verifier::external_body]
pub fn get_json_i64(body: &[u8], key: &str) -> (r: Option<i64>)
    ensures
        r == json_i64(body@, key@),
{
    std::str::from_utf8(body).ok().and_then(|text| {
        serde_json::from_str::<serde_json::Value>(text).ok()
    }).and_then(|v| v.get(key).and_then(|m| m.as_i64()))
}

/// Relies on serde_json: as `get_json_str`, with `Value::as_array` giving
/// the elements in order; any non-string element voids the member.
#[verifier::external_body]
pub fn get_json_str_list(body: &[u8], key: &str) -> (r: Option<Vec<String>>)
    ensures
        (r is Some) == (json_str_list(body@, key@) is Some),
        r matches Some(l) ==> ({
            &&& json_str_list(body@, key@) matches Some(sl)
            &&& sl.len() == l@.len()
            &&& forall|i: int| 0 <= i < l@.len() ==> sl[i] == #[trigger] l@[i]@
        }),
{
    std::str::from_utf8(body).ok().and_then(|text| {
        serde_json::from_str::<serde_json::Value>(text).ok()
    }).and_then(|v| {
        v.get(key).and_then(|m| m.as_array()).and_then(|a| {
            a.iter().map(|e| e.as_str().map(|s| s.to_string())).collect::<Option<Vec<String>>>()
        })
    })
}

/// Relies on serde_json: `Value::get` picks the member and `to_string`
/// re-serializes it; with default features members keep a canonical order,
/// so the bytes are a function of the input alone.
#[verifier::external_body]
pub fn get_json_member(body: &[u8], key: &str) -> (r: Option<Vec<u8>>)
    ensures
        (r is Some) == (json_member(body@, key@) is Some),
        r matches Some(m) ==> json_member(body@, key@) == Some(m@),
{
    std::str::from_utf8(body).ok().and_then(|text| {
        serde_json::from_str::<serde_json::Value>(text).ok()
    }).and_then(|v| v.get(key).map(|m| m.to_string().into_bytes()))
}

/// Relies on serde_json: as `get_json_member`, for each element of an array
/// member in order.
#[verifier::external_body]
pub fn get_json_member_list(body: &[u8], key: &str) -> (r: Option<Vec<Vec<u8>>>)
    ensures
        (r is Some) == (json_member_list(body@, key@) is Some),
        r matches Some(l) ==> ({
            &&& json_member_list(body@, key@) matches Some(sl)
            &&& sl.len() == l@.len()
            &&& forall|i: int| 0 <= i < l@.len() ==> sl[i] == #[trigger] l@[i]@
        }),
{
    std::str::from_utf8(body).ok().and_then(|text| {
        serde_json::from_str::<serde_json::Value>(text).ok()
    }).and_then(|v| {
        v.get(key).and_then(|m| m.as_array()).map(|a| {
            a.iter().map(|e| e.to_string().into_bytes()).collect::<Vec<Vec<u8>>>()
        })
    })
}

} // verus!
