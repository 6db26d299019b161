//! The dispatcher and the batch stage: the ordered recognizer chain over one
//! text payload, and the whole-batch pass that selects eligible records and
//! silently drops the rest.

use crate::bracketed::{bracket_matches, bracket_view, recognize_bracketed};
use crate::model::{Log, LogView, ParseError, Payload, PayloadView, RawCloudWatchLog, RawLogView};
use crate::passthrough::{json_document, recognize_passthrough};
use crate::tab_delimited::{recognize_tab_delimited, tab_matches, tab_view};
use crate::text::str_eq;
use vstd::prelude::*;

verus! {

/// The result of the ordered recognizer chain on a text payload: the first
/// recognizer — TabDelimited, then BracketedLevel, then JsonPassthrough —
/// that does not decline; nothing when all three decline. The two
/// shape-specific recognizers come before the maximally permissive
/// passthrough, so a delimited line is never absorbed as a document.
pub open spec fn dispatch_view(s: Seq<char>) -> Option<LogView> {
    if tab_matches(s) {
        Some(LogView::Unformatted(tab_view(s)))
    } else if bracket_matches(s) {
        Some(LogView::Unformatted(bracket_view(s)))
    } else if json_document(s) is Some {
        Some(LogView::Formatted(json_document(s)->0))
    } else {
        None
    }
}

/// Tries each recognizer in the fixed priority order and returns the first
/// result; when every recognizer declines, fails with `NoFormatMatched`
/// carrying the payload for diagnostics.
pub fn dispatch(payload: &str) -> (r: Result<Log, ParseError>)
    ensures
        dispatch_view(payload@) matches Some(v) ==> (r matches Ok(l) && l@ == v),
        dispatch_view(payload@) is None ==> (r matches Err(e) && (e matches ParseError::NoFormatMatched(p) && p@ == payload@)),
{
    if let Some(l) = recognize_tab_delimited(payload) {
        return Ok(Log::Unformatted(l));
    }
    if let Some(l) = recognize_bracketed(payload) {
        return Ok(Log::Unformatted(l));
    }
    if let Some(l) = recognize_passthrough(payload) {
        return Ok(l);
    }
    Err(ParseError::NoFormatMatched(payload.to_owned()))
}

/// Routes one record's payload through the recognizer chain. The payload must
/// be text: an already-structured payload is a `NonTextPayload` failure, and
/// a text payload that every recognizer declines is a `NoFormatMatched`
/// failure.
pub fn try_parse_cloudwatch_log(log: &RawCloudWatchLog) -> (r: Result<Log, ParseError>)
    ensures
        log.record matches Payload::Text(s) ==> (dispatch_view(s@) matches Some(v) ==> (
        r matches Ok(l) && l@ == v)),
        log.record matches Payload::Text(s) ==> (dispatch_view(s@) is None ==> (r matches Err(e)
            && (e matches ParseError::NoFormatMatched(p) && p@ == s@))),
        log.record is Data ==> r == Err::<Log, ParseError>(ParseError::NonTextPayload),
{
    match &log.record {
        Payload::Text(s) => dispatch(s.as_str()),
        Payload::Data(_) => Err(ParseError::NonTextPayload),
    }
}

/// What one raw record contributes to the batch output: nothing when its
/// origin tag is not `"function"`, when its payload is not text, or when
/// every recognizer declines; otherwise the dispatched result.
pub open spec fn record_output(rv: RawLogView) -> Option<LogView> {
    if rv.log_type != "function"@ {
        None
    } else {
        match rv.record {
            PayloadView::Text(s) => dispatch_view(s),
            PayloadView::Data(_) => None,
        }
    }
}

/// The output entries of a whole batch, in input order: each record
/// contributes its `record_output`, and a record that contributes nothing
/// leaves no entry — the batch itself never fails.
pub open spec fn spec_parse(rs: Seq<RawLogView>) -> Seq<LogView>
    decreases rs.len(),
{
    if rs.len() == 0 {
        Seq::empty()
    } else {
        let rest = spec_parse(rs.drop_last());
        match record_output(rs.last()) {
            Some(l) => rest.push(l),
            None => rest,
        }
    }
}

/// Selects the records whose origin tag is `"function"`, routes each through
/// the recognizer chain, and keeps the successful results in input order.
/// Excluded records and per-record failures are silently dropped: they
/// produce no output entry and never fail the batch.
pub fn parse(logs: Vec<RawCloudWatchLog>) -> (r: Vec<Log>)
    ensures
        r.deep_view() == spec_parse(logs.deep_view()),
{
    let mut out: Vec<Log> = Vec::new();
    let n = logs.len();
    let mut i: usize = 0;
    while i < n
        invariant
            i <= n,
            n == logs.len(),
            out.deep_view() == spec_parse(logs.deep_view().take(i as int)),
        decreases n - i,
    {
        let ghost prefix = logs.deep_view().take(i as int);
        let ghost here = logs.deep_view().take(i as int + 1);
        proof {
            assert(here.drop_last() =~= prefix);
            assert(here.last() == logs[i as int]@);
        }
        let log = &logs[i];
        if str_eq(log.log_type.as_str(), "function") {
            match try_parse_cloudwatch_log(log) {
                Ok(l) => {
                    out.push(l);
                    proof {
                        assert(out.deep_view() =~= spec_parse(here));
                    }
                },
                Err(_) => {
                    proof {
                        assert(out.deep_view() =~= spec_parse(here));
                    }
                },
            }
        } else {
            proof {
                assert(out.deep_view() =~= spec_parse(here));
            }
        }
        i = i + 1;
    }
    proof {
        assert(logs.deep_view().take(n as int) =~= logs.deep_view());
    }
    out
}

/// A record whose origin tag is not `"function"` produces no output entry.
pub proof fn lemma_non_function_record_excluded(rv: RawLogView)
    requires
        rv.log_type != "function"@,
    ensures
        record_output(rv) is None,
{
}

/// A text payload that every recognizer declines produces no output entry:
/// the failure arises inside the dispatcher and is dropped at the batch
/// boundary.
pub proof fn lemma_unmatched_payload_excluded(rv: RawLogView)
    requires
        rv.record matches PayloadView::Text(s) && !tab_matches(s) && !bracket_matches(s)
            && json_document(s) is None,
    ensures
        record_output(rv) is None,
{
}

/// A payload that parses as a structured-data document and matches neither
/// delimited shape is passed through as exactly the parsed document: no
/// re-wrapping, no field extraction.
pub proof fn lemma_unshaped_document_passes_through(s: Seq<char>)
    requires
        !tab_matches(s),
        !bracket_matches(s),
        json_document(s) is Some,
    ensures
        dispatch_view(s) == Some(LogView::Formatted(json_document(s)->0)),
{
}

/// Dispatch order is load-bearing: a payload that matches the bracketed-level
/// shape resolves to a field-extracted result — never to a passthrough — even
/// when the payload would also parse as a structured-data document.
pub proof fn lemma_bracketed_resolves_before_passthrough(s: Seq<char>)
    requires
        bracket_matches(s),
    ensures
        dispatch_view(s) matches Some(v) && v is Unformatted,
{
}

} // verus!
