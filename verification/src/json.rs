//! The little of JSON that the metadata record needs: reading a member of an
//! object, and writing a string literal. Both are `serde_json`'s work.

use vstd::prelude::*;

verus! {

/// The string that the JSON document `text` holds under `key`, or `None`
/// where `text` is not JSON, is not an object, has no such member, or holds
/// something other than a string there.
pub uninterp spec fn json_string_member(text: Seq<char>, key: Seq<char>) -> Option<Seq<char>>;

/// The non-negative integer that the JSON document `text` holds under `key`,
/// or `None` where `text` is not JSON, is not an object, has no such member,
/// or holds something other than an integer from 0 to 2^64 - 1 there.
pub uninterp spec fn json_unsigned_member(text: Seq<char>, key: Seq<char>) -> Option<u64>;

/// The JSON string literal for `s`: quoted, and escaped where JSON asks for it.
pub uninterp spec fn json_string_literal(s: Seq<char>) -> Seq<char>;

/// The characters of an optional string.
pub open spec fn option_text(s: Option<String>) -> Option<Seq<char>> {
    match s {
        Some(s) => Some(s@),
        None => None,
    }
}

/// Calls `serde_json::from_str` for a `Value`, then `Value::get` and
/// `Value::as_str` on it.
///
/// Trusted: what comes back depends on the document and the key alone.
#[verifier::external_body]
pub(crate) fn json_get_string(text: &str, key: &str) -> (r: Option<String>)
    ensures
        option_text(r) == json_string_member(text@, key@),
{
    let document: serde_json::Value = serde_json::from_str(text).ok()?;
    Some(document.get(key)?.as_str()?.to_string())
}

/// Calls `serde_json::from_str` for a `Value`, then `Value::get` and
/// `Value::as_u64` on it.
///
/// Trusted: what comes back depends on the document and the key alone.
#[verifier::external_body]
pub(crate) fn json_get_unsigned(text: &str, key: &str) -> (r: Option<u64>)
    ensures
        r == json_unsigned_member(text@, key@),
{
    let document: serde_json::Value = serde_json::from_str(text).ok()?;
    document.get(key)?.as_u64()
}

/// Makes a `serde_json::Value` of the string and calls its `to_string`,
/// which writes compact JSON.
///
/// Trusted: the literal depends on the string alone.
#[verifier::external_body]
pub(crate) fn json_quote(s: &str) -> (literal: String)
    ensures
        literal@ == json_string_literal(s@),
{
    serde_json::Value::from(s).to_string()
}

} // verus!
