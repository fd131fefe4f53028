//! What the library has from serde_json: whether a text is JSON, and the JSON
//! texts that serde_json writes back for what it parsed.

use vstd::prelude::*;

verus! {

#[verifier::external_type_specification]
#[verifier::external_body]
pub struct ExError(serde_json::Error);

/// Whether serde_json's parser accepts a text as one JSON value: well-formed
/// JSON, with nothing but whitespace after it, nested no deeper than the
/// parser allows.
pub uninterp spec fn is_json_text(s: Seq<char>) -> bool;

/// The compact JSON text that serde_json writes for the value it parses from
/// a text.
pub uninterp spec fn compact_json(s: Seq<char>) -> Seq<char>;

/// The compact JSON texts of the elements of the value that serde_json parses
/// from a text, in order, when that value is an array; none otherwise.
pub uninterp spec fn array_elements(s: Seq<char>) -> Option<Seq<Seq<char>>>;

/// Whether serde_json's parser accepts a byte string as one JSON value.
pub uninterp spec fn is_json_bytes(b: Seq<u8>) -> bool;

/// The JSON text, indented by two spaces per level, that serde_json writes
/// for the value it parses from a byte string.
pub uninterp spec fn pretty_json(b: Seq<u8>) -> Seq<char>;

/// The views of the strings of an optional vector.
pub open spec fn opt_texts(o: Option<Vec<String>>) -> Option<Seq<Seq<char>>> {
    match o {
        Some(v) => Some(v@.map_values(|t: String| t@)),
        None => None,
    }
}

/// Relies on serde_json::from_str::<Value>, then on `Display` for Value: the
/// compact text of the parsed value.
#[verifier::external_body]
pub(crate) fn compact_of_text(s: &str) -> (r: Result<String, serde_json::Error>)
    ensures
        r is Ok <==> is_json_text(s@),
        r is Ok ==> r->Ok_0@ == compact_json(s@),
{
    serde_json::from_str::<serde_json::Value>(s).map(|v| v.to_string())
}

/// Relies on serde_json::from_str::<Value>, Value::as_array and `Display` for
/// Value: the compact texts of the parsed array's elements.
#[verifier::external_body]
pub(crate) fn elements_of_text(s: &str) -> (r: Result<Option<Vec<String>>, serde_json::Error>)
    ensures
        r is Ok <==> is_json_text(s@),
        r is Ok ==> opt_texts(r->Ok_0) == array_elements(s@),
{
    serde_json::from_str::<serde_json::Value>(s)
        .map(|v| v.as_array().map(|a| a.iter().map(|e| e.to_string()).collect()))
}

/// Relies on serde_json::from_slice::<Value>, then on the alternate `Display`
/// for Value: the parsed value written with two-space indentation.
#[verifier::external_body]
pub(crate) fn pretty_of_bytes(b: &[u8]) -> (r: Result<String, serde_json::Error>)
    ensures
        r is Ok <==> is_json_bytes(b@),
        r is Ok ==> r->Ok_0@ == pretty_json(b@),
{
    serde_json::from_slice::<serde_json::Value>(b).map(|v| format!("{:#}", v))
}

/// Relies on serde_json's `Display` for Error: the parser's description of
/// what went wrong.
#[verifier::external_body]
pub(crate) fn error_text(e: &serde_json::Error) -> String {
    e.to_string()
}

} // verus!
