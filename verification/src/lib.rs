//! Normalizes heterogeneous cloud log lines into one structured record shape.
//!
//! Three payload shapes are recognized, in a fixed priority order: a
//! tab-delimited line, a line that opens with a bracketed severity level, and
//! a payload that is already a well-formed structured document and is passed
//! through unchanged. Records whose origin tag is not `"function"`, and
//! records that no recognizer accepts, produce no output entry.

mod batch;
mod bracketed;
mod level;
mod model;
mod passthrough;
mod tab_delimited;
mod text;

pub use batch::dispatch;
pub use batch::dispatch_view;
pub use batch::lemma_bracketed_resolves_before_passthrough;
pub use batch::lemma_non_function_record_excluded;
pub use batch::lemma_unmatched_payload_excluded;
pub use batch::lemma_unshaped_document_passes_through;
pub use batch::parse;
pub use batch::record_output;
pub use batch::spec_parse;
pub use batch::try_parse_cloudwatch_log;
pub use bracketed::bracket_line;
pub use bracketed::bracket_matches;
pub use bracketed::bracket_view;
pub use bracketed::lemma_bracketed_whitespace_insensitive;
pub use bracketed::recognize_bracketed;
pub use level::lemma_level_token_chars;
pub use level::spec_level_of;
pub use level::LogLevel;
pub use model::Log;
pub use model::LogView;
pub use model::ParseError;
pub use model::Payload;
pub use model::PayloadView;
pub use model::RawCloudWatchLog;
pub use model::RawLogView;
pub use model::StructuredLog;
pub use model::StructuredLogView;
pub use passthrough::json_document;
pub use passthrough::recognize_passthrough;
pub use tab_delimited::lemma_tab_delimited_extraction;
pub use tab_delimited::recognize_tab_delimited;
pub use tab_delimited::tab_line;
pub use tab_delimited::tab_matches;
pub use tab_delimited::tab_view;
pub use text::find_char;
pub use text::find_non_space;
pub use text::find_space;
pub use text::is_space;
