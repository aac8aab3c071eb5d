//! Trusted boundary around the JSON library: parsing, re-serialization and
//! string-field lookup, with the results named by uninterpreted spec
//! functions so that callers' contracts can speak of them exactly.

use vstd::prelude::*;

verus! {

/// Whether the byte sequence `b` is a well-formed JSON document.
pub uninterp spec fn json_wf(b: Seq<u8>) -> bool;

/// The canonical re-serialization of the JSON document `b` (meaningful only
/// when `json_wf(b)` holds): the text the JSON library prints for the value
/// that `b` denotes.
pub uninterp spec fn json_norm(b: Seq<u8>) -> Seq<char>;

/// Whether the text `t` is a well-formed JSON document whose top-level value
/// is an object.
pub uninterp spec fn json_object_wf(t: Seq<char>) -> bool;

/// The string value of field `k` of the JSON object `t`: `Some` exactly when
/// `t` is a well-formed JSON object carrying field `k` with a string value.
pub uninterp spec fn json_str_field(t: Seq<char>, k: Seq<char>) -> Option<Seq<char>>;

/// The JSON string literal (quotes and escapes included) that encodes `s`.
pub uninterp spec fn json_str_lit(s: Seq<char>) -> Seq<char>;

/// Outcome of looking up one string field of a JSON object text.
pub(crate) enum FieldLookup {
    /// The text is not a well-formed JSON object.
    NotObject,
    /// The text is a JSON object, but the field is absent or not a string.
    NoString,
    /// The field is present with this string value.
    Found(String),
}

/// Re-serialize a JSON document, or report the parser's failure detail.
///
/// Relies on `serde_json::from_slice::<serde_json::Value>` (succeeds exactly
/// on well-formed JSON) and `serde_json::to_string` (cannot fail on a value
/// it produced itself, and depends on that value alone).
#[verifier::external_body]
pub(crate) fn normalize_json(b: &[u8]) -> (r: Result<String, String>)
    ensures
        (r is Ok) <==> json_wf(b@),
        (r is Ok) ==> (r->Ok_0)@ == json_norm(b@),
{
    match serde_json::from_slice::<serde_json::Value>(b) {
        Ok(v) => Ok(serde_json::to_string(&v).unwrap()),
        Err(e) => Err(e.to_string()),
    }
}

/// Look up one string field of a JSON object given as text.
///
/// Relies on `serde_json::from_str::<serde_json::Value>` (succeeds exactly on
/// well-formed JSON), on `serde_json::Map::get` and on the variants of
/// `serde_json::Value`; the outcome depends on the two arguments alone.
#[verifier::external_body]
pub(crate) fn get_str_field(t: &str, k: &str) -> (r: FieldLookup)
    ensures
        (r is NotObject) <==> !json_object_wf(t@),
        (r is NoString) <==> (json_object_wf(t@) && json_str_field(t@, k@) is None),
        (r is Found) <==> (json_str_field(t@, k@) is Some),
        (r is Found) ==> json_str_field(t@, k@) == Some((r->Found_0)@),
{
    match serde_json::from_str::<serde_json::Value>(t) {
        Ok(serde_json::Value::Object(m)) => match m.get(k) {
            Some(serde_json::Value::String(s)) => FieldLookup::Found(s.clone()),
            _ => FieldLookup::NoString,
        },
        _ => FieldLookup::NotObject,
    }
}

/// Encode a string as a JSON string literal.
///
/// Relies on `serde_json::to_string` on a `&str`, which never fails for a
/// string value and depends on the characters alone.
#[verifier::external_body]
pub(crate) fn json_string(s: &str) -> (r: String)
    ensures
        r@ == json_str_lit(s@),
{
    serde_json::to_string(s).unwrap()
}

} // verus!
