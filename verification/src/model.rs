//! The record shapes this library works on, and the ghost views that its
//! contracts are stated over.

use crate::level::LogLevel;
use vstd::prelude::*;

verus! {

/// A record payload as the envelope delivers it: either raw text, which the
/// recognizers inspect, or a value that already arrived as structured data.
pub enum Payload {
    Text(String),
    Data(serde_json::Value),
}

/// A raw record as captured by the log-aggregation service: an emission
/// timestamp, an origin tag, and the payload. Only records whose origin tag
/// is `"function"` and whose payload is text are eligible for recognition.
pub struct RawCloudWatchLog {
    pub time: String,
    pub log_type: String,
    pub record: Payload,
}

/// A log line reconstructed field by field. Every field but the trailing
/// message is optional because a recognizer may extract only a subset,
/// depending on the shape it matched.
#[derive(Debug)]
pub struct StructuredLog {
    pub timestamp: Option<String>,
    pub guid: Option<String>,
    pub level: Option<LogLevel>,
    pub data: String,
}

/// The outcome of recognition: a line reconstructed field by field, or a
/// payload that was already structured data and is passed through unchanged.
#[derive(Debug)]
pub enum Log {
    Unformatted(StructuredLog),
    Formatted(serde_json::Value),
}

/// The failures a single record can produce. At the batch boundary they are
/// swallowed: a failing record simply yields no output entry.
#[derive(Debug)]
pub enum ParseError {
    /// The payload had to be text but was already-structured data.
    NonTextPayload,
    /// Every recognizer declined; carries the payload for diagnostics.
    NoFormatMatched(String),
    /// A severity token was present but is none of the three valid values;
    /// carries the offending token.
    LevelParse(String),
}

impl Default for RawCloudWatchLog {
    /// An empty record: empty timestamp and origin tag, and the default
    /// structured-data payload (the unit document), which is not text.
    fn default() -> (r: Self)
        ensures
            r.time@ == Seq::<char>::empty(),
            r.log_type@ == Seq::<char>::empty(),
            r.record is Data,
    {
        RawCloudWatchLog {
            time: String::new(),
            log_type: String::new(),
            record: Payload::Data(crate::passthrough::null_value()),
        }
    }
}

/// Ghost view of [`Payload`].
#[verifier::ext_equal]
pub ghost enum PayloadView {
    Text(Seq<char>),
    Data(serde_json::Value),
}

/// Ghost view of [`RawCloudWatchLog`].
#[verifier::ext_equal]
pub ghost struct RawLogView {
    pub time: Seq<char>,
    pub log_type: Seq<char>,
    pub record: PayloadView,
}

/// Ghost view of [`StructuredLog`].
#[verifier::ext_equal]
pub ghost struct StructuredLogView {
    pub timestamp: Option<Seq<char>>,
    pub guid: Option<Seq<char>>,
    pub level: Option<LogLevel>,
    pub data: Seq<char>,
}

/// Ghost view of [`Log`].
#[verifier::ext_equal]
pub ghost enum LogView {
    Unformatted(StructuredLogView),
    Formatted(serde_json::Value),
}

#[verifier::external_type_specification]
#[verifier::external_body]
pub struct ExValue(serde_json::Value);

impl View for Payload {
    type V = PayloadView;

    open spec fn view(&self) -> PayloadView {
        match self {
            Payload::Text(s) => PayloadView::Text(s@),
            Payload::Data(v) => PayloadView::Data(*v),
        }
    }
}

impl DeepView for Payload {
    type V = PayloadView;

    open spec fn deep_view(&self) -> PayloadView {
        self.view()
    }
}

impl View for RawCloudWatchLog {
    type V = RawLogView;

    open spec fn view(&self) -> RawLogView {
        RawLogView { time: self.time@, log_type: self.log_type@, record: self.record@ }
    }
}

impl DeepView for RawCloudWatchLog {
    type V = RawLogView;

    open spec fn deep_view(&self) -> RawLogView {
        self.view()
    }
}

impl View for StructuredLog {
    type V = StructuredLogView;

    open spec fn view(&self) -> StructuredLogView {
        StructuredLogView {
            timestamp: match self.timestamp {
                Some(t) => Some(t@),
                None => None,
            },
            guid: match self.guid {
                Some(g) => Some(g@),
                None => None,
            },
            level: self.level,
            data: self.data@,
        }
    }
}

impl View for Log {
    type V = LogView;

    open spec fn view(&self) -> LogView {
        match self {
            Log::Unformatted(l) => LogView::Unformatted(l@),
            Log::Formatted(v) => LogView::Formatted(*v),
        }
    }
}

impl DeepView for Log {
    type V = LogView;

    open spec fn deep_view(&self) -> LogView {
        self.view()
    }
}

} // verus!
