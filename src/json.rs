//! Reading single values out of JSON text.
use vstd::prelude::*;

verus! {

/// The string at JSON pointer `pointer` (RFC 6901) in the JSON document
/// `text`; `None` when `text` is not JSON, nothing is there, or it is not a
/// string.
pub uninterp spec fn json_text_at(text: Seq<char>, pointer: Seq<char>) -> Option<Seq<char>>;

/// The unsigned integer at JSON pointer `pointer` in the JSON document
/// `text`; `None` when there is none that fits a `u64`.
pub uninterp spec fn json_count_at(text: Seq<char>, pointer: Seq<char>) -> Option<u64>;

/// Relies on `serde_json::from_str` into a `Value`, `Value::pointer`, and
/// telling the `String` variant apart.
#[verifier::external_body]
pub(crate) fn json_str_at(text: &str, pointer: &str) -> (r: Option<String>)
    ensures
        json_text_at(text@, pointer@) == (match r {
            Some(s) => Some(s@),
            None => None::<Seq<char>>,
        }),
{
    match serde_json::from_str::<serde_json::Value>(text) {
        Ok(v) => match v.pointer(pointer) {
            Some(serde_json::Value::String(s)) => Some(s.clone()),
            _ => None,
        },
        Err(_) => None,
    }
}

/// Relies on `serde_json::from_str` into a `Value`, `Value::pointer` and
/// `Value::as_u64`.
#[verifier::external_body]
pub(crate) fn json_u64_at(text: &str, pointer: &str) -> (r: Option<u64>)
    ensures
        json_count_at(text@, pointer@) == r,
{
    match serde_json::from_str::<serde_json::Value>(text) {
        Ok(v) => v.pointer(pointer).and_then(|x| x.as_u64()),
        Err(_) => None,
    }
}

} // verus!
