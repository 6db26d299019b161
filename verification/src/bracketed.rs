//! The bracketed-level shape: a severity token in square brackets, a tab, a
//! timestamp, a run of one-or-more whitespace characters, a correlation id,
//! a tab, and the message as the whole remainder.

use crate::level::{lemma_level_token_chars, level_token, spec_level_of};
use crate::model::{StructuredLog, StructuredLogView};
use crate::text::{
    find_char, find_char_at, find_non_space, find_non_space_at, find_space, find_space_at,
    is_space, lemma_find_char_at_first, lemma_find_non_space_at_first, lemma_find_space_at_first,
};
use vstd::prelude::*;
use vstd::string::StrSliceExecFns;

verus! {

/// Whether `s` has the bracketed-level shape: it opens with a bracketed valid
/// severity token followed by a tab; the timestamp that follows is terminated
/// by a whitespace character; some non-whitespace character follows that run;
/// and a tab follows where the correlation id starts.
pub open spec fn bracket_matches(s: Seq<char>) -> bool {
    let rb = find_char(s, ']', 1);
    let ws = find_space(s, rb + 2);
    let gs = find_non_space(s, ws);
    let gt = find_char(s, '\t', gs);
    &&& s.len() > 0
    &&& s[0] == '['
    &&& rb < s.len()
    &&& spec_level_of(s.subrange(1, rb as int)) is Some
    &&& rb + 1 < s.len()
    &&& s[rb as int + 1] == '\t'
    &&& ws < s.len()
    &&& gs < s.len()
    &&& gt < s.len()
}

/// The fields a bracketed-level line splits into: the bracketed token as the
/// level, the text between the tab and the first whitespace as the timestamp,
/// the text from the first non-whitespace after that run up to the next tab
/// as the correlation id, and the remainder as the message.
pub open spec fn bracket_view(s: Seq<char>) -> StructuredLogView {
    let rb = find_char(s, ']', 1);
    let ws = find_space(s, rb + 2);
    let gs = find_non_space(s, ws);
    let gt = find_char(s, '\t', gs);
    StructuredLogView {
        timestamp: Some(s.subrange(rb as int + 2, ws as int)),
        guid: Some(s.subrange(gs as int, gt as int)),
        level: spec_level_of(s.subrange(1, rb as int)),
        data: s.subrange(gt as int + 1, s.len() as int),
    }
}

/// Attempts the bracketed-level shape on a payload, declining (not failing)
/// when the bracket is absent or malformed, when the bracketed token is not a
/// valid severity token, or when the later delimiters are missing.
pub fn recognize_bracketed(s: &str) -> (r: Option<StructuredLog>)
    ensures
        r is Some <==> bracket_matches(s@),
        r matches Some(l) ==> l@ == bracket_view(s@),
{
    let n = s.unicode_len();
    if n == 0 {
        return None;
    }
    if s.get_char(0) != '[' {
        return None;
    }
    let rb = find_char_at(s, ']', 1);
    if rb == n {
        return None;
    }
    let token = s.substring_char(1, rb);
    let level = match level_token(token) {
        Some(l) => l,
        None => {
            return None;
        },
    };
    if rb + 1 == n {
        return None;
    }
    if s.get_char(rb + 1) != '\t' {
        return None;
    }
    let ws = find_space_at(s, rb + 2);
    if ws == n {
        return None;
    }
    let gs = find_non_space_at(s, ws);
    if gs == n {
        return None;
    }
    let gt = find_char_at(s, '\t', gs);
    if gt == n {
        return None;
    }
    let log = StructuredLog {
        timestamp: Some(s.substring_char(rb + 2, ws).to_owned()),
        guid: Some(s.substring_char(gs, gt).to_owned()),
        level: Some(level),
        data: s.substring_char(gt + 1, n).to_owned(),
    };
    proof {
        assert(log@ =~~= bracket_view(s@));
    }
    Some(log)
}

/// A line assembled from the fields of the bracketed-level shape, with `sep`
/// as the whitespace run between timestamp and correlation id.
pub open spec fn bracket_line(
    lvl: Seq<char>,
    ts: Seq<char>,
    sep: Seq<char>,
    id: Seq<char>,
    msg: Seq<char>,
) -> Seq<char> {
    seq!['['] + lvl + seq![']', '\t'] + ts + sep + id + seq!['\t'] + msg
}

/// Extraction from the bracketed-level shape does not depend on the exact
/// run of whitespace between the timestamp and the correlation id: a line
/// assembled with any non-empty all-whitespace run `sep` matches, and the
/// extracted fields are the assembled ones — `sep` appears in none of them.
pub proof fn lemma_bracketed_whitespace_insensitive(
    lvl: Seq<char>,
    ts: Seq<char>,
    sep: Seq<char>,
    id: Seq<char>,
    msg: Seq<char>,
)
    requires
        spec_level_of(lvl) is Some,
        forall|j: int| 0 <= j < ts.len() ==> !is_space(#[trigger] ts[j]),
        sep.len() >= 1,
        forall|j: int| 0 <= j < sep.len() ==> is_space(#[trigger] sep[j]),
        id.len() >= 1,
        !is_space(id[0]),
        !id.contains('\t'),
    ensures
        bracket_matches(bracket_line(lvl, ts, sep, id, msg)),
        bracket_view(bracket_line(lvl, ts, sep, id, msg)) == (StructuredLogView {
            timestamp: Some(ts),
            guid: Some(id),
            level: spec_level_of(lvl),
            data: msg,
        }),
{
    let s = bracket_line(lvl, ts, sep, id, msg);
    let rb = 1 + lvl.len();
    let ws = rb + 2 + ts.len();
    let gs = ws + sep.len();
    let gt = gs + id.len();
    lemma_level_token_chars(lvl);
    assert(s[0] == '[');
    assert forall|j: int| 1 <= j < rb implies s[j] != ']' by {
        assert(s[j] == lvl[j - 1]);
        assert(!lvl.contains(']') ==> lvl[j - 1] != ']');
    }
    assert(s[rb as int] == ']');
    lemma_find_char_at_first(s, ']', 1, rb);
    assert(s.subrange(1, rb as int) =~= lvl);
    assert(s[rb as int + 1] == '\t');
    assert forall|j: int| rb + 2 <= j < ws implies !is_space(s[j]) by {
        assert(s[j] == ts[j - (rb + 2)]);
    }
    assert(is_space(s[ws as int])) by {
        assert(s[ws as int] == sep[0]);
        assert(is_space(sep[0]));
    }
    lemma_find_space_at_first(s, rb + 2, ws);
    assert forall|j: int| ws <= j < gs implies is_space(s[j]) by {
        assert(s[j] == sep[j - ws]);
    }
    assert(!is_space(s[gs as int])) by {
        assert(s[gs as int] == id[0]);
    }
    lemma_find_non_space_at_first(s, ws, gs);
    assert forall|j: int| gs <= j < gt implies s[j] != '\t' by {
        assert(s[j] == id[j - gs]);
        assert(!id.contains('\t') ==> id[j - gs] != '\t');
    }
    assert(s[gt as int] == '\t');
    lemma_find_char_at_first(s, '\t', gs, gt);
    assert(s.subrange(rb as int + 2, ws as int) =~= ts);
    assert(s.subrange(gs as int, gt as int) =~= id);
    assert(s.subrange(gt as int + 1, s.len() as int) =~= msg);
    assert(bracket_view(s) =~~= StructuredLogView {
        timestamp: Some(ts),
        guid: Some(id),
        level: spec_level_of(lvl),
        data: msg,
    });
}

} // verus!
