//! Deriving a note's display name from a `title:` marker in its composed
//! body, with a fixed default where no marker yields a title.

use vstd::prelude::*;

verus! {

use crate::text::{
    line_end,
    line_end_from,
    matches_at,
    occurs_at,
    skip_spaces,
    skip_spaces_from,
};
use vstd::string::{StrSliceExecFns, StringExecFns};

/// The marker that introduces a note's title.
pub open spec fn title_marker() -> Seq<char> {
    "title:"@
}

/// The name a note falls back to when its body names no title.
pub open spec fn default_note_name() -> Seq<char> {
    "Untitled"@
}

/// Where the title text would start for a marker at `i`: after the marker
/// and any spaces or tabs that follow it.
pub open spec fn title_content_start(s: Seq<char>, i: int) -> int {
    skip_spaces(s, i + title_marker().len())
}

/// The marker at `i` yields a title: it occurs there and is followed, on
/// the same line, by at least one character of content.
pub open spec fn title_match_at(s: Seq<char>, i: int) -> bool {
    &&& occurs_at(s, title_marker(), i)
    &&& title_content_start(s, i) < s.len()
    &&& s[title_content_start(s, i)] != '\n'
}

/// The least position at or after `from` whose marker yields a title.
pub open spec fn first_title_match(s: Seq<char>, from: int) -> Option<int>
    decreases s.len() - from,
{
    if title_marker().len() == 0 || from + title_marker().len() > s.len() {
        None
    } else if title_match_at(s, from) {
        Some(from)
    } else {
        first_title_match(s, from + 1)
    }
}

/// The note name derived from a body: the first title's content, to the
/// end of its line, or the default name.
pub open spec fn derived_note_name(s: Seq<char>) -> Seq<char> {
    match first_title_match(s, 0) {
        Some(i) => s.subrange(title_content_start(s, i), line_end(s, title_content_start(s, i))),
        None => default_note_name(),
    }
}

/// Checks whether the marker at `i` yields a title.
fn is_title_match(s: &str, i: usize) -> (r: bool)
    ensures
        r == title_match_at(s@, i as int),
{
    proof {
        reveal_strlit("title:");
    }
    if !matches_at(s, "title:", i) {
        return false;
    }
    let sl = s.unicode_len();
    let j = skip_spaces_from(s, i + 6);
    if j == sl {
        return false;
    }
    s.get_char(j) != '\n'
}

/// Derives a note's display name from its body.
pub fn derive_note_name(body: &str) -> (r: String)
    ensures
        r@ == derived_note_name(body@),
{
    proof {
        reveal_strlit("title:");
    }
    let sl = body.unicode_len();
    if sl < 6 {
        return String::from_str("Untitled");
    }
    let mut i: usize = 0;
    while i <= sl - 6
        invariant
            sl == body@.len(),
            sl >= 6,
            i <= sl - 6 + 1,
            title_marker().len() == 6,
            first_title_match(body@, 0) == first_title_match(body@, i as int),
        decreases sl - i,
    {
        if is_title_match(body, i) {
            assert(first_title_match(body@, i as int) == Some(i as int));
            let start = skip_spaces_from(body, i + 6);
            let e = line_end_from(body, start);
            let content = body.substring_char(start, e);
            return String::from_str(content);
        }
        assert(first_title_match(body@, i as int) == first_title_match(body@, i + 1));
        i += 1;
    }
    String::from_str("Untitled")
}

} // verus!
