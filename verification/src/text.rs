//! Character scanning over text payloads: first occurrence of a delimiter,
//! first whitespace, first non-whitespace, and string equality.

use vstd::prelude::*;
use vstd::string::StrSliceExecFns;

verus! {

/// The characters treated as whitespace when a run of them separates the
/// timestamp from the correlation id in the bracketed-level shape.
pub open spec fn is_space(c: char) -> bool {
    c == ' ' || c == '\t' || c == '\n' || c == '\r'
}

/// Index of the first occurrence of `c` in `s` at or after `from`;
/// `s.len()` when there is none.
pub open spec fn find_char(s: Seq<char>, c: char, from: nat) -> nat
    decreases s.len() - from,
{
    if from >= s.len() {
        s.len()
    } else if s[from as int] == c {
        from
    } else {
        find_char(s, c, from + 1)
    }
}

/// Index of the first whitespace character in `s` at or after `from`;
/// `s.len()` when there is none.
pub open spec fn find_space(s: Seq<char>, from: nat) -> nat
    decreases s.len() - from,
{
    if from >= s.len() {
        s.len()
    } else if is_space(s[from as int]) {
        from
    } else {
        find_space(s, from + 1)
    }
}

/// Index of the first non-whitespace character in `s` at or after `from`;
/// `s.len()` when there is none.
pub open spec fn find_non_space(s: Seq<char>, from: nat) -> nat
    decreases s.len() - from,
{
    if from >= s.len() {
        s.len()
    } else if !is_space(s[from as int]) {
        from
    } else {
        find_non_space(s, from + 1)
    }
}

/// The first occurrence of `c` at or after `from` is at `i`: nothing in
/// `[from, i)` is `c`, and either `s[i]` is `c` or `i` is the end.
pub proof fn lemma_find_char_at_first(s: Seq<char>, c: char, from: nat, i: nat)
    requires
        from <= i <= s.len(),
        forall|j: int| from <= j < i ==> s[j] != c,
        i < s.len() ==> s[i as int] == c,
    ensures
        find_char(s, c, from) == i,
    decreases i - from,
{
    if from < i {
        assert(s[from as int] != c);
        lemma_find_char_at_first(s, c, from + 1, i);
    }
}

/// The first whitespace character at or after `from` is at `i`.
pub proof fn lemma_find_space_at_first(s: Seq<char>, from: nat, i: nat)
    requires
        from <= i <= s.len(),
        forall|j: int| from <= j < i ==> !is_space(s[j]),
        i < s.len() ==> is_space(s[i as int]),
    ensures
        find_space(s, from) == i,
    decreases i - from,
{
    if from < i {
        assert(!is_space(s[from as int]));
        lemma_find_space_at_first(s, from + 1, i);
    }
}

/// The first non-whitespace character at or after `from` is at `i`.
pub proof fn lemma_find_non_space_at_first(s: Seq<char>, from: nat, i: nat)
    requires
        from <= i <= s.len(),
        forall|j: int| from <= j < i ==> is_space(s[j]),
        i < s.len() ==> !is_space(s[i as int]),
    ensures
        find_non_space(s, from) == i,
    decreases i - from,
{
    if from < i {
        assert(is_space(s[from as int]));
        lemma_find_non_space_at_first(s, from + 1, i);
    }
}

pub(crate) fn find_char_at(s: &str, c: char, from: usize) -> (r: usize)
    requires
        from <= s@.len(),
    ensures
        r as nat == find_char(s@, c, from as nat),
        from <= r <= s@.len(),
{
    let n = s.unicode_len();
    let mut i = from;
    while i < n
        invariant
            from <= i <= n,
            n as nat == s@.len(),
            find_char(s@, c, from as nat) == find_char(s@, c, i as nat),
        decreases n - i,
    {
        if s.get_char(i) == c {
            return i;
        }
        i = i + 1;
    }
    n
}

pub(crate) fn find_space_at(s: &str, from: usize) -> (r: usize)
    requires
        from <= s@.len(),
    ensures
        r as nat == find_space(s@, from as nat),
        from <= r <= s@.len(),
{
    let n = s.unicode_len();
    let mut i = from;
    while i < n
        invariant
            from <= i <= n,
            n as nat == s@.len(),
            find_space(s@, from as nat) == find_space(s@, i as nat),
        decreases n - i,
    {
        let ch = s.get_char(i);
        if ch == ' ' || ch == '\t' || ch == '\n' || ch == '\r' {
            return i;
        }
        i = i + 1;
    }
    n
}

pub(crate) fn find_non_space_at(s: &str, from: usize) -> (r: usize)
    requires
        from <= s@.len(),
    ensures
        r as nat == find_non_space(s@, from as nat),
        from <= r <= s@.len(),
{
    let n = s.unicode_len();
    let mut i = from;
    while i < n
        invariant
            from <= i <= n,
            n as nat == s@.len(),
            find_non_space(s@, from as nat) == find_non_space(s@, i as nat),
        decreases n - i,
    {
        let ch = s.get_char(i);
        if !(ch == ' ' || ch == '\t' || ch == '\n' || ch == '\r') {
            return i;
        }
        i = i + 1;
    }
    n
}

pub(crate) fn str_eq(a: &str, b: &str) -> (r: bool)
    ensures
        r == (a@ == b@),
{
    let na = a.unicode_len();
    let nb = b.unicode_len();
    if na != nb {
        return false;
    }
    let mut i: usize = 0;
    while i < na
        invariant
            i <= na,
            na as nat == a@.len(),
            nb as nat == b@.len(),
            na == nb,
            forall|j: int| 0 <= j < i ==> a@[j] == b@[j],
        decreases na - i,
    {
        if a.get_char(i) != b.get_char(i) {
            return false;
        }
        i = i + 1;
    }
    proof {
        assert(a@ =~= b@);
    }
    true
}

} // verus!
