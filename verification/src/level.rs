//! The severity level of a log line, parsed from its exact uppercase token.

use crate::model::ParseError;
use crate::text::str_eq;
use vstd::prelude::*;

verus! {

/// The three severity levels a log line can carry.
#[derive(Debug, Clone, Copy, PartialEq, Eq, Structural)]
pub enum LogLevel {
    Info,
    Warn,
    Error,
}

/// The level a severity token denotes: exactly `"INFO"`, `"WARN"` or
/// `"ERROR"` (case-sensitive); any other token denotes none.
pub open spec fn spec_level_of(s: Seq<char>) -> Option<LogLevel> {
    if s == "INFO"@ {
        Some(LogLevel::Info)
    } else if s == "WARN"@ {
        Some(LogLevel::Warn)
    } else if s == "ERROR"@ {
        Some(LogLevel::Error)
    } else {
        None
    }
}

/// Recognizes a severity token, declining (rather than failing) on any token
/// that denotes no level.
pub(crate) fn level_token(s: &str) -> (r: Option<LogLevel>)
    ensures
        r == spec_level_of(s@),
{
    if str_eq(s, "INFO") {
        Some(LogLevel::Info)
    } else if str_eq(s, "WARN") {
        Some(LogLevel::Warn)
    } else if str_eq(s, "ERROR") {
        Some(LogLevel::Error)
    } else {
        None
    }
}

/// A valid severity token — one of the three exact uppercase words — holds
/// neither a tab nor a closing bracket, the two delimiters that bound it in
/// the recognized line shapes.
pub proof fn lemma_level_token_chars(lvl: Seq<char>)
    requires
        spec_level_of(lvl) is Some,
    ensures
        !lvl.contains('\t'),
        !lvl.contains(']'),
{
    reveal_strlit("INFO");
    reveal_strlit("WARN");
    reveal_strlit("ERROR");
    assert forall|j: int| 0 <= j < lvl.len() implies lvl[j] != '\t' && lvl[j] != ']' by {
        if lvl == "INFO"@ {
            assert(lvl[j] != '\t' && lvl[j] != ']');
        } else if lvl == "WARN"@ {
            assert(lvl[j] != '\t' && lvl[j] != ']');
        } else {
            assert(lvl == "ERROR"@);
            assert(lvl[j] != '\t' && lvl[j] != ']');
        }
    }
}

impl LogLevel {
    /// Parses a severity token: returns the level for the exact tokens
    /// `"INFO"`, `"WARN"` and `"ERROR"`, and fails on any other token,
    /// carrying the offending token in the error.
    pub fn try_from(level: String) -> (r: Result<LogLevel, ParseError>)
        ensures
            spec_level_of(level@) matches Some(l) ==> r == Ok::<LogLevel, ParseError>(l),
            spec_level_of(level@) is None ==> (r matches Err(e) && e matches ParseError::LevelParse(
                t,
            ) && t@ == level@),
    {
        match level_token(level.as_str()) {
            Some(l) => Ok(l),
            None => Err(ParseError::LevelParse(level)),
        }
    }
}

} // verus!
