//! The passthrough shape: a payload that is already a well-formed
//! structured-data document is kept as that document, unchanged — no field
//! extraction is attempted.

use crate::model::{Log, LogView};
use vstd::prelude::*;

verus! {

/// What parsing a text payload as a structured-data document yields: the
/// document when the text is valid, nothing otherwise. The result is a
/// function of the text alone; which texts are valid, and what document they
/// denote, is the grammar of the outside parser and is not spelled out here.
pub uninterp spec fn json_document(s: Seq<char>) -> Option<serde_json::Value>;

/// Relies on `serde_json::from_str`: deserializes the text as a JSON
/// document, succeeding exactly on valid documents, and depends on the text
/// alone.
#[verifier::external_body]
fn parse_json_document(s: &str) -> (r: Option<serde_json::Value>)
    ensures
        r == json_document(s@),
{
    serde_json::from_str::<serde_json::Value>(s).ok()
}

/// Relies on `serde_json::Value::Null`: the unit document, the default value
/// of a structured-data payload.
#[verifier::external_body]
pub(crate) fn null_value() -> serde_json::Value {
    serde_json::Value::Null
}

/// Attempts the passthrough shape on a payload: a payload that parses as a
/// structured-data document is returned as that document, unchanged; any
/// other payload is declined.
pub fn recognize_passthrough(s: &str) -> (r: Option<Log>)
    ensures
        r is Some <==> json_document(s@) is Some,
        r matches Some(l) ==> l@ == LogView::Formatted(json_document(s@)->0),
{
    match parse_json_document(s) {
        Some(v) => Some(Log::Formatted(v)),
        None => None,
    }
}

} // verus!
