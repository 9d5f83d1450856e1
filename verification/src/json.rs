//! Reading members of JSON documents held as text.

use vstd::prelude::*;

verus! {

/// The string held by member `key` of the JSON object written in `text`:
/// `None` where `text` is no JSON document, is no object, lacks the member,
/// or holds something other than a string there.
pub uninterp spec fn json_str_member(text: Seq<char>, key: Seq<char>) -> Option<Seq<char>>;

/// Parses `text` with `serde_json::from_str` into a `serde_json::Value`, looks
/// the member up with `Value::get` and keeps it where it is a string. The
/// contract names the outcome `json_str_member` of the text and the key and
/// claims nothing more of it: what the parser accepts is serde_json's.
#[verifier::external_body]
pub(crate) fn str_member(text: &str, key: &str) -> (r: Option<String>)
    ensures
        r is Some <==> json_str_member(text@, key@) is Some,
        r matches Some(v) ==> json_str_member(text@, key@) == Some(v@),
{
    let value: serde_json::Value = match serde_json::from_str(text) {
        Ok(v) => v,
        Err(_) => return None,
    };
    match value.get(key) {
        Some(serde_json::Value::String(s)) => Some(s.clone()),
        _ => None,
    }
}

} // verus!
