//! Members of a JSON request body, read with `serde_json`.

use vstd::prelude::*;

verus! {

/// The string member `key` of the JSON object that `text` holds, as
/// `serde_json` reads it (`None` where `text` is not JSON, is not an object,
/// lacks `key`, or holds a non-string there).
pub uninterp spec fn json_member_str(text: Seq<char>, key: Seq<char>) -> Option<Seq<char>>;

/// The member `key` of the JSON object that `text` holds, where it is a
/// non-negative integer that fits in `u64`, as `serde_json` reads it.
pub uninterp spec fn json_member_u64(text: Seq<char>, key: Seq<char>) -> Option<u64>;

/// Parses `text` with `serde_json::from_str::<Value>` and reads member `key`
/// with `Value::get` and `Value::as_str`. The result is a function of `text`
/// and `key` alone; what it is, is left to the name `json_member_str`.
#[verifier::external_body]
pub(crate) fn member_str(text: &str, key: &str) -> (r: Option<String>)
    ensures
        match r {
            Some(s) => json_member_str(text@, key@) == Some(s@),
            None => json_member_str(text@, key@) is None,
        },
{
    let v: Option<serde_json::Value> = serde_json::from_str(text).ok();
    v.and_then(|v| v.get(key).and_then(|x| x.as_str()).map(|s| s.to_string()))
}

/// Parses `text` with `serde_json::from_str::<Value>` and reads member `key`
/// with `Value::get` and `Value::as_u64`. The result is a function of `text`
/// and `key` alone; what it is, is left to the name `json_member_u64`.
#[verifier::external_body]
pub(crate) fn member_u64(text: &str, key: &str) -> (r: Option<u64>)
    ensures
        r == json_member_u64(text@, key@),
{
    let v: Option<serde_json::Value> = serde_json::from_str(text).ok();
    v.and_then(|v| v.get(key).and_then(|x| x.as_u64()))
}

} // verus!
