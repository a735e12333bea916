//! Character-level text primitives: substring matching, line matching,
//! first-occurrence searches and whitespace scanning, each with an exact
//! specification over the string's view.

use vstd::prelude::*;

verus! {

use vstd::string::StrSliceExecFns;

/// The Unicode code point of `c`, with ASCII upper-case letters mapped to
/// their lower-case counterparts.
pub open spec fn lower_code(c: char) -> int {
    if 65 <= c as u32 && c as u32 <= 90 {
        c as u32 + 32
    } else {
        (c as u32) as int
    }
}

/// `name` ends with `suffix`, compared ASCII-case-insensitively.
pub open spec fn suffix_matches_ci(name: Seq<char>, suffix: Seq<char>) -> bool {
    &&& name.len() >= suffix.len()
    &&& forall|k: int|
        0 <= k < suffix.len() ==> lower_code(name[name.len() - suffix.len() + k]) == lower_code(
            suffix[k],
        )
}

/// `s` ends with `suffix`, compared exactly.
pub open spec fn ends_with(s: Seq<char>, suffix: Seq<char>) -> bool {
    &&& s.len() >= suffix.len()
    &&& s.subrange(s.len() - suffix.len(), s.len() as int) == suffix
}

/// `pat` occurs in `s` starting at position `i`.
pub open spec fn occurs_at(s: Seq<char>, pat: Seq<char>, i: int) -> bool {
    &&& 0 <= i
    &&& i + pat.len() <= s.len()
    &&& s.subrange(i, i + pat.len()) == pat
}

/// `line` stands as a whole line of `s` at position `i`: it occurs there,
/// is preceded by the start of `s` or a newline, and is followed by the end
/// of `s` or a newline.
pub open spec fn is_line_at(s: Seq<char>, line: Seq<char>, i: int) -> bool {
    &&& occurs_at(s, line, i)
    &&& (i == 0 || s[i - 1] == '\n')
    &&& (i + line.len() == s.len() || s[i + line.len()] == '\n')
}

/// The least position at or after `from` where `pat` occurs in `s`.
pub open spec fn first_occurrence(s: Seq<char>, pat: Seq<char>, from: int) -> Option<int>
    decreases s.len() - from,
{
    if pat.len() == 0 || from + pat.len() > s.len() {
        None
    } else if occurs_at(s, pat, from) {
        Some(from)
    } else {
        first_occurrence(s, pat, from + 1)
    }
}

/// The least position at or after `from` where `line` stands as a whole
/// line of `s`.
pub open spec fn first_line_pos(s: Seq<char>, line: Seq<char>, from: int) -> Option<int>
    decreases s.len() - from,
{
    if line.len() == 0 || from + line.len() > s.len() {
        None
    } else if is_line_at(s, line, from) {
        Some(from)
    } else {
        first_line_pos(s, line, from + 1)
    }
}

/// The first position at or after `i` holding a character other than a
/// space or a tab, or the end of `s`.
pub open spec fn skip_spaces(s: Seq<char>, i: int) -> int
    decreases s.len() - i,
{
    if i < 0 || i >= s.len() {
        i
    } else if s[i] == ' ' || s[i] == '\t' {
        skip_spaces(s, i + 1)
    } else {
        i
    }
}

/// The position of the first newline at or after `i`, or the end of `s`.
pub open spec fn line_end(s: Seq<char>, i: int) -> int
    decreases s.len() - i,
{
    if i < 0 {
        0
    } else if i >= s.len() {
        s.len() as int
    } else if s[i] == '\n' {
        i
    } else {
        line_end(s, i + 1)
    }
}

/// `first_occurrence` returns the least match position, and `None` only
/// when no position at or after `from` matches.
pub proof fn lemma_first_occurrence(s: Seq<char>, pat: Seq<char>, from: int)
    requires
        pat.len() > 0,
    ensures
        match first_occurrence(s, pat, from) {
            Some(p) => from <= p && occurs_at(s, pat, p) && forall|j: int|
                from <= j < p ==> !occurs_at(s, pat, j),
            None => forall|j: int| from <= j ==> !occurs_at(s, pat, j),
        },
    decreases s.len() - from,
{
    if from + pat.len() > s.len() {
    } else if occurs_at(s, pat, from) {
    } else {
        lemma_first_occurrence(s, pat, from + 1);
    }
}

/// `first_line_pos` returns the least match position, and `None` only when
/// no position at or after `from` matches.
pub proof fn lemma_first_line_pos(s: Seq<char>, line: Seq<char>, from: int)
    requires
        line.len() > 0,
    ensures
        match first_line_pos(s, line, from) {
            Some(p) => from <= p && is_line_at(s, line, p) && forall|j: int|
                from <= j < p ==> !is_line_at(s, line, j),
            None => forall|j: int| from <= j ==> !is_line_at(s, line, j),
        },
    decreases s.len() - from,
{
    if from + line.len() > s.len() {
    } else if is_line_at(s, line, from) {
    } else {
        lemma_first_line_pos(s, line, from + 1);
    }
}

/// A position whose span covers a newline of `s` holds no newline-free
/// line.
pub proof fn lemma_no_line_over_newline(s: Seq<char>, line: Seq<char>, j: int, q: int)
    requires
        !line.contains('\n'),
        j <= q < j + line.len(),
        0 <= q < s.len(),
        s[q] == '\n',
    ensures
        !is_line_at(s, line, j),
{
    if is_line_at(s, line, j) {
        assert(s.subrange(j, j + line.len())[q - j] == s[q]);
        assert(line.contains('\n')) by {
            assert(line[q - j] == '\n');
        }
    }
}

/// In a concatenation whose first part is empty or ends with a newline,
/// the lines at positions at or past the first part's end are exactly the
/// second part's lines.
pub proof fn lemma_line_at_concat_suffix(a: Seq<char>, b: Seq<char>, line: Seq<char>, j: int)
    requires
        a.len() == 0 || a[a.len() - 1] == '\n',
        0 <= j,
    ensures
        is_line_at(a + b, line, a.len() + j) <==> is_line_at(b, line, j),
{
    let c = a + b;
    if j + line.len() <= b.len() {
        assert(c.subrange(a.len() + j, a.len() + j + line.len()) =~= b.subrange(
            j,
            j + line.len(),
        ));
    }
}

/// In a concatenation whose second part is empty or starts with a
/// newline, the lines lying wholly within the first part are exactly the
/// first part's lines.
pub proof fn lemma_line_at_concat_prefix(a: Seq<char>, b: Seq<char>, line: Seq<char>, j: int)
    requires
        b.len() == 0 || b[0] == '\n',
        0 <= j,
        j + line.len() <= a.len(),
    ensures
        is_line_at(a + b, line, j) <==> is_line_at(a, line, j),
{
    let c = a + b;
    assert(c.subrange(j, j + line.len()) =~= a.subrange(j, j + line.len()));
}

/// A line lying strictly inside the first part of a concatenation is a
/// line of that part, whatever follows.
pub proof fn lemma_line_at_strict_prefix(a: Seq<char>, b: Seq<char>, line: Seq<char>, j: int)
    requires
        0 <= j,
        j + line.len() < a.len(),
    ensures
        is_line_at(a + b, line, j) <==> is_line_at(a, line, j),
{
    let c = a + b;
    assert(c.subrange(j, j + line.len()) =~= a.subrange(j, j + line.len()));
}

/// Maps an ASCII upper-case letter to its lower-case code point and leaves
/// every other character's code point as it is.
pub fn char_lower(c: char) -> (r: u32)
    ensures
        r as int == lower_code(c),
{
    let u = c as u32;
    if 65 <= u && u <= 90 {
        u + 32
    } else {
        u
    }
}

/// Decides whether `name` ends with `suffix`, ignoring ASCII case.
pub fn ends_with_ignore_ascii_case(name: &str, suffix: &str) -> (r: bool)
    ensures
        r == suffix_matches_ci(name@, suffix@),
{
    let nl = name.unicode_len();
    let sl = suffix.unicode_len();
    if nl < sl {
        return false;
    }
    let base = nl - sl;
    let mut k: usize = 0;
    while k < sl
        invariant
            sl <= nl,
            nl == name@.len(),
            sl == suffix@.len(),
            base == nl - sl,
            k <= sl,
            forall|m: int|
                0 <= m < k ==> lower_code(name@[base + m]) == lower_code(suffix@[m]),
        decreases sl - k,
    {
        let a = char_lower(name.get_char(base + k));
        let b = char_lower(suffix.get_char(k));
        if a != b {
            return false;
        }
        k += 1;
    }
    true
}

/// Decides whether `s` ends with `suffix`, compared exactly.
pub fn ends_with_exact(s: &str, suffix: &str) -> (r: bool)
    ensures
        r == ends_with(s@, suffix@),
{
    let sl = s.unicode_len();
    let fl = suffix.unicode_len();
    if sl < fl {
        return false;
    }
    matches_at(s, suffix, sl - fl)
}

/// Decides whether `pat` occurs in `s` at position `i`.
pub fn matches_at(s: &str, pat: &str, i: usize) -> (r: bool)
    ensures
        r == occurs_at(s@, pat@, i as int),
{
    let sl = s.unicode_len();
    let pl = pat.unicode_len();
    if i > sl || pl > sl - i {
        return false;
    }
    let mut j: usize = 0;
    while j < pl
        invariant
            sl == s@.len(),
            pl == pat@.len(),
            i + pl <= sl,
            j <= pl,
            forall|m: int| 0 <= m < j ==> s@[i + m] == pat@[m],
        decreases pl - j,
    {
        if s.get_char(i + j) != pat.get_char(j) {
            proof {
                assert(s@.subrange(i as int, i + pat@.len())[j as int] == s@[i + j]);
            }
            return false;
        }
        j += 1;
    }
    proof {
        assert(s@.subrange(i as int, i + pat@.len()) =~= pat@);
    }
    true
}

/// Decides whether `line` stands as a whole line of `s` at position `i`.
pub fn line_at(s: &str, line: &str, i: usize) -> (r: bool)
    ensures
        r == is_line_at(s@, line@, i as int),
{
    if !matches_at(s, line, i) {
        return false;
    }
    if i > 0 && s.get_char(i - 1) != '\n' {
        return false;
    }
    let sl = s.unicode_len();
    let ll = line.unicode_len();
    let end = i + ll;
    if end == sl {
        true
    } else {
        s.get_char(end) == '\n'
    }
}

/// Finds the least position at or after `from` where `pat` occurs in `s`.
/// The pattern must not be empty: there is nothing to find.
pub fn find_occurrence(s: &str, pat: &str, from: usize) -> (r: Option<usize>)
    requires
        pat@.len() > 0,
    ensures
        match r {
            Some(p) => first_occurrence(s@, pat@, from as int) == Some(p as int),
            None => first_occurrence(s@, pat@, from as int) is None,
        },
{
    let sl = s.unicode_len();
    let pl = pat.unicode_len();
    if pl > sl {
        return None;
    }
    let mut i: usize = from;
    while i <= sl - pl
        invariant
            sl == s@.len(),
            pl == pat@.len(),
            0 < pl <= sl,
            from <= i,
            first_occurrence(s@, pat@, from as int) == first_occurrence(s@, pat@, i as int),
        decreases sl - i,
    {
        if matches_at(s, pat, i) {
            return Some(i);
        }
        assert(first_occurrence(s@, pat@, i as int) == first_occurrence(s@, pat@, i + 1));
        i += 1;
    }
    None
}

/// Finds the least position at or after `from` where `line` stands as a
/// whole line of `s`. The line must not be empty: there is nothing to
/// find.
pub fn find_line(s: &str, line: &str, from: usize) -> (r: Option<usize>)
    requires
        line@.len() > 0,
    ensures
        match r {
            Some(p) => first_line_pos(s@, line@, from as int) == Some(p as int),
            None => first_line_pos(s@, line@, from as int) is None,
        },
{
    let sl = s.unicode_len();
    let ll = line.unicode_len();
    if ll > sl {
        return None;
    }
    let mut i: usize = from;
    while i <= sl - ll
        invariant
            sl == s@.len(),
            ll == line@.len(),
            0 < ll <= sl,
            from <= i,
            first_line_pos(s@, line@, from as int) == first_line_pos(s@, line@, i as int),
        decreases sl - i,
    {
        if line_at(s, line, i) {
            return Some(i);
        }
        assert(first_line_pos(s@, line@, i as int) == first_line_pos(s@, line@, i + 1));
        i += 1;
    }
    None
}

/// Advances from `i` past spaces and tabs.
pub fn skip_spaces_from(s: &str, i: usize) -> (r: usize)
    requires
        i as int <= s@.len(),
    ensures
        r as int == skip_spaces(s@, i as int),
        i <= r,
        r as int <= s@.len(),
{
    let sl = s.unicode_len();
    let mut j: usize = i;
    while j < sl
        invariant
            sl == s@.len(),
            i <= j <= sl,
            skip_spaces(s@, i as int) == skip_spaces(s@, j as int),
        decreases sl - j,
    {
        let c = s.get_char(j);
        if !(c == ' ' || c == '\t') {
            return j;
        }
        j += 1;
    }
    j
}

/// Advances from `i` to the next newline, or to the end of `s`.
pub fn line_end_from(s: &str, i: usize) -> (r: usize)
    requires
        i as int <= s@.len(),
    ensures
        r as int == line_end(s@, i as int),
        i <= r,
        r as int <= s@.len(),
{
    let sl = s.unicode_len();
    let mut j: usize = i;
    while j < sl
        invariant
            sl == s@.len(),
            i <= j <= sl,
            line_end(s@, i as int) == line_end(s@, j as int),
        decreases sl - j,
    {
        if s.get_char(j) == '\n' {
            return j;
        }
        j += 1;
    }
    j
}

} // verus!
