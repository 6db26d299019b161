//! The tab-delimited shape: `timestamp \t correlation-id \t level \t message`,
//! where the message is the whole remainder after the third tab and may
//! itself contain tabs and newlines.

use crate::level::{lemma_level_token_chars, level_token, spec_level_of};
use crate::model::{StructuredLog, StructuredLogView};
use crate::text::{find_char, find_char_at, lemma_find_char_at_first};
use vstd::prelude::*;
use vstd::string::StrSliceExecFns;

verus! {

/// Whether `s` has the tab-delimited shape: at least three tabs, and the
/// segment between the second and third tab is a valid severity token.
pub open spec fn tab_matches(s: Seq<char>) -> bool {
    let t1 = find_char(s, '\t', 0);
    let t2 = find_char(s, '\t', t1 + 1);
    let t3 = find_char(s, '\t', t2 + 1);
    &&& t1 < s.len()
    &&& t2 < s.len()
    &&& t3 < s.len()
    &&& spec_level_of(s.subrange(t2 as int + 1, t3 as int)) is Some
}

/// The fields a tab-delimited line splits into: the three segments bounded by
/// the first three tabs, and the remainder after the third tab as the message.
pub open spec fn tab_view(s: Seq<char>) -> StructuredLogView {
    let t1 = find_char(s, '\t', 0);
    let t2 = find_char(s, '\t', t1 + 1);
    let t3 = find_char(s, '\t', t2 + 1);
    StructuredLogView {
        timestamp: Some(s.subrange(0, t1 as int)),
        guid: Some(s.subrange(t1 as int + 1, t2 as int)),
        level: spec_level_of(s.subrange(t2 as int + 1, t3 as int)),
        data: s.subrange(t3 as int + 1, s.len() as int),
    }
}

/// Attempts the tab-delimited shape on a payload, declining (not failing)
/// when the shape or its severity token does not fit.
pub fn recognize_tab_delimited(s: &str) -> (r: Option<StructuredLog>)
    ensures
        r is Some <==> tab_matches(s@),
        r matches Some(l) ==> l@ == tab_view(s@),
{
    let n = s.unicode_len();
    let t1 = find_char_at(s, '\t', 0);
    if t1 == n {
        return None;
    }
    let t2 = find_char_at(s, '\t', t1 + 1);
    if t2 == n {
        return None;
    }
    let t3 = find_char_at(s, '\t', t2 + 1);
    if t3 == n {
        return None;
    }
    let token = s.substring_char(t2 + 1, t3);
    let level = match level_token(token) {
        Some(l) => l,
        None => {
            return None;
        },
    };
    let log = StructuredLog {
        timestamp: Some(s.substring_char(0, t1).to_owned()),
        guid: Some(s.substring_char(t1 + 1, t2).to_owned()),
        level: Some(level),
        data: s.substring_char(t3 + 1, n).to_owned(),
    };
    proof {
        assert(log@ =~~= tab_view(s@));
    }
    Some(log)
}

/// A line assembled from the four fields of the tab-delimited shape.
pub open spec fn tab_line(ts: Seq<char>, id: Seq<char>, lvl: Seq<char>, msg: Seq<char>) -> Seq<
    char,
> {
    ts + seq!['\t'] + id + seq!['\t'] + lvl + seq!['\t'] + msg
}

/// A line assembled from tab-free timestamp and correlation-id fields and a
/// valid severity token matches the tab-delimited shape, and its fields are
/// extracted exactly as assembled — independent of what the message holds,
/// embedded tabs and newlines included.
pub proof fn lemma_tab_delimited_extraction(
    ts: Seq<char>,
    id: Seq<char>,
    lvl: Seq<char>,
    msg: Seq<char>,
)
    requires
        !ts.contains('\t'),
        !id.contains('\t'),
        spec_level_of(lvl) is Some,
    ensures
        tab_matches(tab_line(ts, id, lvl, msg)),
        tab_view(tab_line(ts, id, lvl, msg)) == (StructuredLogView {
            timestamp: Some(ts),
            guid: Some(id),
            level: spec_level_of(lvl),
            data: msg,
        }),
{
    let s = tab_line(ts, id, lvl, msg);
    let a = ts.len();
    let b = a + 1 + id.len();
    let c = b + 1 + lvl.len();
    lemma_level_token_chars(lvl);
    assert forall|j: int| 0 <= j < a implies s[j] != '\t' by {
        assert(s[j] == ts[j]);
        assert(!ts.contains('\t') ==> ts[j] != '\t');
    }
    assert(s[a as int] == '\t');
    lemma_find_char_at_first(s, '\t', 0, a);
    assert forall|j: int| a + 1 <= j < b implies s[j] != '\t' by {
        assert(s[j] == id[j - (a + 1)]);
        assert(!id.contains('\t') ==> id[j - (a + 1)] != '\t');
    }
    assert(s[b as int] == '\t');
    lemma_find_char_at_first(s, '\t', a + 1, b);
    assert forall|j: int| b + 1 <= j < c implies s[j] != '\t' by {
        assert(s[j] == lvl[j - (b + 1)]);
    }
    assert(s[c as int] == '\t');
    lemma_find_char_at_first(s, '\t', b + 1, c);
    assert(s.subrange(0, a as int) =~= ts);
    assert(s.subrange(a as int + 1, b as int) =~= id);
    assert(s.subrange(b as int + 1, c as int) =~= lvl);
    assert(s.subrange(c as int + 1, s.len() as int) =~= msg);
    assert(tab_view(s) =~~= StructuredLogView {
        timestamp: Some(ts),
        guid: Some(id),
        level: spec_level_of(lvl),
        data: msg,
    });
}

} // verus!
