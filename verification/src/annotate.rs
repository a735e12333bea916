//! The annotation stage: tying a composed note body back to its source
//! audio file with a marker line, and appending the raw transcript under
//! its own heading.

use vstd::prelude::*;

verus! {

use crate::audio_marker_line;
use crate::audio_marker_prefix;
use crate::delimiter;
use crate::text::{
    ends_with,
    find_line,
    first_line_pos,
    is_line_at,
    lemma_first_line_pos,
    lemma_line_at_concat_prefix,
    lemma_line_at_concat_suffix,
    lemma_line_at_strict_prefix,
    lemma_no_line_over_newline,
};
use crate::note_extension;
use crate::transcription_heading;
use crate::vault::{
    header_contains_line,
    is_new_audio_file,
    lemma_matching_newer_note_excludes,
    VaultDocumentView,
};
use vstd::string::{StrSliceExecFns, StringExecFns};

/// The note body with the audio-file marker line worked in: directly
/// after the first delimiter line where the body has one, prepended
/// otherwise.
pub open spec fn body_with_marker(body: Seq<char>, name: Seq<char>) -> Seq<char> {
    let marker = audio_marker_line(name);
    match first_line_pos(body, delimiter(), 0) {
        Some(p) => {
            let end = p + delimiter().len();
            if end < body.len() {
                body.subrange(0, end + 1) + marker + "\n"@ + body.subrange(
                    end + 1,
                    body.len() as int,
                )
            } else {
                body + "\n"@ + marker
            }
        },
        None => marker + "\n"@ + body,
    }
}

/// The fully annotated note: the marker-bearing body with the transcript
/// appended under its own heading.
pub open spec fn annotated_note(
    body: Seq<char>,
    name: Seq<char>,
    transcription: Seq<char>,
) -> Seq<char> {
    body_with_marker(body, name) + transcription_heading() + transcription
}

/// Where the marker line comes to stand in the annotated note: directly
/// after the first delimiter line where the body has one (after the
/// body's final newline where that line closes the body), at the very
/// start otherwise.
pub open spec fn marker_position(body: Seq<char>) -> int {
    match first_line_pos(body, delimiter(), 0) {
        Some(p) => {
            if p + delimiter().len() < body.len() {
                p + delimiter().len() + 1
            } else {
                body.len() as int + 1
            }
        },
        None => 0,
    }
}

/// The marker stands as a whole line at its position in the annotated
/// note.
pub proof fn lemma_marker_line_present(body: Seq<char>, name: Seq<char>, tr: Seq<char>)
    ensures
        is_line_at(annotated_note(body, name, tr), audio_marker_line(name), marker_position(body)),
{
    reveal_strlit("\n");
    reveal_strlit("---");
    reveal_strlit("\n## Transcription\n");
    let marker = audio_marker_line(name);
    let c = annotated_note(body, name, tr);
    let pos = marker_position(body);
    lemma_first_line_pos(body, delimiter(), 0);
    match first_line_pos(body, delimiter(), 0) {
        Some(p) => {
            let end = p + delimiter().len();
            if end < body.len() {
                assert(c.subrange(pos, pos + marker.len()) =~= marker);
                assert(c[pos - 1] == '\n');
                assert(c[pos + marker.len()] == '\n');
            } else {
                assert(c.subrange(pos, pos + marker.len()) =~= marker);
                assert(c[pos - 1] == '\n');
                assert(c[pos + marker.len()] == transcription_heading()[0]);
            }
        },
        None => {
            assert(c.subrange(0, marker.len() as int) =~= marker);
            assert(c[marker.len() as int] == '\n');
        },
    }
}

/// Round trip: whatever the body, the annotated note carries the
/// audio-file marker as a whole line and ends with the raw transcript
/// under its heading, verbatim.
pub proof fn lemma_round_trip(body: Seq<char>, name: Seq<char>, tr: Seq<char>)
    ensures
        exists|i: int|
            is_line_at(annotated_note(body, name, tr), audio_marker_line(name), i),
        ends_with(annotated_note(body, name, tr), transcription_heading() + tr),
{
    let c = annotated_note(body, name, tr);
    lemma_marker_line_present(body, name, tr);
    assert(is_line_at(c, audio_marker_line(name), marker_position(body)));
    let tail = transcription_heading() + tr;
    assert(c.subrange(c.len() - tail.len(), c.len() as int) =~= tail);
}

/// The heading-and-transcript tail carries no marker line of its own, as
/// long as the transcript carries none.
proof fn lemma_marker_not_in_tail(name: Seq<char>, tr: Seq<char>)
    requires
        !audio_marker_line(name).contains('\n'),
        forall|j: int| !is_line_at(tr, audio_marker_line(name), j),
    ensures
        forall|q: int| !is_line_at("## Transcription\n"@ + tr, audio_marker_line(name), q),
{
    reveal_strlit("## Transcription\n");
    reveal_strlit("audio_file_name: ");
    let h = "## Transcription\n"@;
    let marker = audio_marker_line(name);
    let r = h + tr;
    assert forall|q: int| !is_line_at(r, marker, q) by {
        if q == 0 {
            if is_line_at(r, marker, q) {
                assert(r.subrange(0, marker.len() as int)[0] == r[0]);
                assert(marker[0] == audio_marker_prefix()[0]);
            }
        } else if 0 < q < h.len() {
            if is_line_at(r, marker, q) {
                assert(r[q - 1] == h[q - 1]);
            }
        } else if q >= h.len() {
            lemma_line_at_concat_suffix(h, tr, marker, q - h.len());
        }
    }
}

/// A block followed by the heading-and-transcript tail carries no marker
/// line, as long as neither the block nor the transcript carries one.
proof fn lemma_marker_not_in_block(block: Seq<char>, name: Seq<char>, tr: Seq<char>)
    requires
        !audio_marker_line(name).contains('\n'),
        forall|j: int| !is_line_at(block, audio_marker_line(name), j),
        forall|j: int| !is_line_at(tr, audio_marker_line(name), j),
    ensures
        forall|q: int|
            !is_line_at(block + transcription_heading() + tr, audio_marker_line(name), q),
{
    reveal_strlit("\n## Transcription\n");
    reveal_strlit("\n");
    reveal_strlit("## Transcription\n");
    let marker = audio_marker_line(name);
    let z = block + transcription_heading() + tr;
    let r = "## Transcription\n"@ + tr;
    let a = block + "\n"@;
    lemma_marker_not_in_tail(name, tr);
    assert(z =~= a + r);
    assert(z =~= block + (transcription_heading() + tr));
    assert forall|q: int| !is_line_at(z, marker, q) by {
        if q < 0 {
        } else if q + marker.len() <= block.len() {
            lemma_line_at_concat_prefix(block, transcription_heading() + tr, marker, q);
        } else if q <= block.len() {
            lemma_no_line_over_newline(z, marker, q, block.len() as int);
        } else {
            lemma_line_at_concat_suffix(a, r, marker, q - a.len());
        }
    }
}

/// The annotation places the marker line exactly once: at its position —
/// directly after the first delimiter line, or at the very start of a
/// body without one — and nowhere else, as long as neither the body nor
/// the transcript already carries the marker line.
pub proof fn lemma_annotation_marker_once(body: Seq<char>, name: Seq<char>, tr: Seq<char>)
    requires
        !audio_marker_line(name).contains('\n'),
        forall|j: int| !is_line_at(body, audio_marker_line(name), j),
        forall|j: int| !is_line_at(tr, audio_marker_line(name), j),
    ensures
        is_line_at(annotated_note(body, name, tr), audio_marker_line(name), marker_position(body)),
        forall|j: int|
            j != marker_position(body) ==> !is_line_at(
                annotated_note(body, name, tr),
                audio_marker_line(name),
                j,
            ),
{
    reveal_strlit("\n");
    reveal_strlit("---");
    reveal_strlit("audio_file_name: ");
    lemma_marker_line_present(body, name, tr);
    let marker = audio_marker_line(name);
    let c = annotated_note(body, name, tr);
    let pos = marker_position(body);
    lemma_first_line_pos(body, delimiter(), 0);
    assert(marker.len() > 0) by {
        assert(marker.len() >= audio_marker_prefix().len());
    }
    match first_line_pos(body, delimiter(), 0) {
        None => {
            let a = marker + "\n"@;
            let z = body + transcription_heading() + tr;
            lemma_marker_not_in_block(body, name, tr);
            assert(c =~= a + z);
            assert forall|j: int| j != pos implies !is_line_at(c, marker, j) by {
                if 0 < j && j < a.len() {
                    if is_line_at(c, marker, j) {
                        assert(c[j - 1] == marker[j - 1]);
                        assert(marker.contains('\n')) by {
                            assert(marker[j - 1] == '\n');
                        }
                    }
                } else if j >= a.len() {
                    lemma_line_at_concat_suffix(a, z, marker, j - a.len());
                }
            }
        },
        Some(p) => {
            let end = p + delimiter().len();
            if end < body.len() {
                let x = body.subrange(0, end + 1);
                let rest = body.subrange(end + 1, body.len() as int);
                let z = rest + transcription_heading() + tr;
                let w = x + (marker + "\n"@);
                assert(body =~= x + rest);
                assert(c =~= w + z);
                assert(w[w.len() - 1] == '\n');
                assert forall|j: int| !is_line_at(rest, marker, j) by {
                    if 0 <= j {
                        lemma_line_at_concat_suffix(x, rest, marker, j);
                        assert(!is_line_at(body, marker, x.len() + j));
                    }
                }
                lemma_marker_not_in_block(rest, name, tr);
                assert forall|j: int| j != pos implies !is_line_at(c, marker, j) by {
                    if j < 0 {
                    } else if j + marker.len() < x.len() {
                        lemma_line_at_strict_prefix(x, marker + "\n"@ + z, marker, j);
                        assert(c =~= x + (marker + "\n"@ + z));
                        lemma_line_at_strict_prefix(x, rest, marker, j);
                    } else if j + marker.len() == x.len() {
                        if is_line_at(c, marker, j) {
                            assert(c[j + marker.len()] == marker[0]);
                            assert(marker.contains('\n')) by {
                                assert(marker[0] == '\n');
                            }
                        }
                    } else if j < x.len() {
                        lemma_no_line_over_newline(c, marker, j, end);
                    } else if j < w.len() {
                        if is_line_at(c, marker, j) {
                            assert(c[j - 1] == marker[j - 1 - x.len()]);
                            assert(marker.contains('\n')) by {
                                assert(marker[j - 1 - x.len()] == '\n');
                            }
                        }
                    } else {
                        lemma_line_at_concat_suffix(w, z, marker, j - w.len());
                    }
                }
            } else {
                let x = body + "\n"@;
                let w = x + (marker + "\n"@);
                let r = "## Transcription\n"@ + tr;
                reveal_strlit("\n## Transcription\n");
                reveal_strlit("## Transcription\n");
                lemma_marker_not_in_tail(name, tr);
                assert(c =~= w + r);
                assert(w[w.len() - 1] == '\n') by {
                    assert(transcription_heading()[0] == '\n');
                    assert(w[w.len() - 1] == c[w.len() - 1]);
                }
                assert forall|j: int| j != pos implies !is_line_at(c, marker, j) by {
                    if j < 0 {
                    } else if j + marker.len() <= body.len() {
                        lemma_line_at_concat_prefix(body, "\n"@ + marker + transcription_heading()
                            + tr, marker, j);
                        assert(c =~= body + ("\n"@ + marker + transcription_heading() + tr));
                    } else if j <= body.len() {
                        lemma_no_line_over_newline(c, marker, j, body.len() as int);
                    } else if j < w.len() {
                        if is_line_at(c, marker, j) {
                            assert(c[j - 1] == marker[j - 1 - x.len()]);
                            assert(marker.contains('\n')) by {
                                assert(marker[j - 1 - x.len()] == '\n');
                            }
                        }
                    } else {
                        lemma_line_at_concat_suffix(w, r, marker, j - w.len());
                    }
                }
            }
        },
    }
}

/// A body that opens with a delimiter line and closes its front matter
/// with a second one yields an annotated note whose header block carries
/// the marker line: exactly what the vault scan looks for.
pub proof fn lemma_annotated_header_carries_marker(body: Seq<char>, name: Seq<char>, tr: Seq<char>)
    requires
        is_line_at(body, delimiter(), 0),
        first_line_pos(body, delimiter(), 1) is Some,
        !audio_marker_line(name).contains('\n'),
    ensures
        header_contains_line(annotated_note(body, name, tr), audio_marker_line(name)),
{
    reveal_strlit("\n");
    reveal_strlit("---");
    reveal_strlit("audio_file_name: ");
    reveal_strlit("\n## Transcription\n");
    let marker = audio_marker_line(name);
    let l = marker.len() as int;
    let c = annotated_note(body, name, tr);
    let p2 = first_line_pos(body, delimiter(), 1)->Some_0;
    lemma_first_line_pos(body, delimiter(), 1);
    lemma_first_line_pos(body, delimiter(), 0);
    assert(first_line_pos(body, delimiter(), 0) == Some(0int));
    assert(p2 + delimiter().len() <= body.len());
    let x = body.subrange(0, 4);
    let rest = body.subrange(4, body.len() as int);
    let w = x + (marker + "\n"@);
    let z = rest + transcription_heading() + tr;
    assert(body =~= x + rest);
    assert(c =~= w + z);
    assert(marker.len() >= audio_marker_prefix().len());
    // the annotated note still opens with the delimiter line
    assert(is_line_at(c, delimiter(), 0)) by {
        assert(c.subrange(0, 3) =~= delimiter());
        assert(c[3] == body[3]);
    }
    // the marker stands at position 4, directly inside the header
    lemma_marker_line_present(body, name, tr);
    assert(marker_position(body) == 4);
    // the second delimiter line survives, shifted past the marker line
    assert(is_line_at(c, delimiter(), p2 + l + 1)) by {
        lemma_line_at_concat_suffix(x, rest, delimiter(), p2 - 4);
        assert(is_line_at(rest, delimiter(), p2 - 4));
        lemma_line_at_concat_prefix(rest, transcription_heading() + tr, delimiter(), p2 - 4);
        assert(z =~= rest + (transcription_heading() + tr));
        assert(is_line_at(z, delimiter(), p2 - 4));
        lemma_line_at_concat_suffix(w, z, delimiter(), p2 - 4);
        assert(w.len() + (p2 - 4) == p2 + l + 1);
    }
    // and no delimiter line stands between the start and the marker line
    lemma_first_line_pos(c, delimiter(), 1);
    match first_line_pos(c, delimiter(), 1) {
        None => {
            assert(!is_line_at(c, delimiter(), p2 + l + 1));
            assert(false);
        },
        Some(q) => {
            assert(q <= p2 + l + 1);
            assert(!is_line_at(c, delimiter(), 1)) by {
                if is_line_at(c, delimiter(), 1) {
                    assert(c[0] == '\n');
                }
            }
            assert(!is_line_at(c, delimiter(), 2)) by {
                if is_line_at(c, delimiter(), 2) {
                    assert(c[1] == '\n');
                }
            }
            assert(!is_line_at(c, delimiter(), 3)) by {
                if is_line_at(c, delimiter(), 3) {
                    assert(c[2] == '\n');
                }
            }
            assert(!is_line_at(c, delimiter(), 4)) by {
                if is_line_at(c, delimiter(), 4) {
                    assert(c.subrange(4, 7)[0] == c[4]);
                    assert(c[4] == marker[0]);
                    assert(marker[0] == audio_marker_prefix()[0]);
                }
            }
            assert(q > 4);
            assert(0 < 4 < q && is_line_at(c, marker, 4));
        },
    }
}

/// A second cycle sees the note a first cycle wrote: once the annotated
/// note stands in the vault, newer than the audio file's server-reported
/// time, the same audio file is no longer new.
pub proof fn lemma_note_blocks_second_cycle(
    body: Seq<char>,
    name: Seq<char>,
    tr: Seq<char>,
    t: i64,
    docs: Seq<VaultDocumentView>,
    k: int,
)
    requires
        is_line_at(body, delimiter(), 0),
        first_line_pos(body, delimiter(), 1) is Some,
        !audio_marker_line(name).contains('\n'),
        0 <= k < docs.len(),
        docs[k].content == annotated_note(body, name, tr),
        ends_with(docs[k].name, note_extension()),
        docs[k].modified_millis > t,
    ensures
        !is_new_audio_file(name, Some(t), docs),
{
    lemma_annotated_header_carries_marker(body, name, tr);
    lemma_matching_newer_note_excludes(name, t, docs, k);
}

/// Builds the annotated note for one audio file.
pub fn annotate_note(body: &str, name: &str, transcription: &str) -> (r: String)
    ensures
        r@ == annotated_note(body@, name@, transcription@),
{
    proof {
        reveal_strlit("---");
    }
    let bl = body.unicode_len();
    let mut marked: String;
    match find_line(body, "---", 0) {
        Some(p) => {
            proof {
                lemma_first_line_pos(body@, delimiter(), 0);
            }
            let end = p + 3;
            if end < bl {
                let head = body.substring_char(0, end + 1);
                let tail = body.substring_char(end + 1, bl);
                let mut out = String::from_str(head);
                out.append("audio_file_name: ");
                out.append(name);
                out.append("\n");
                out.append(tail);
                proof {
                    assert(out@ =~= body_with_marker(body@, name@));
                }
                marked = out;
            } else {
                let mut out = String::from_str(body);
                out.append("\n");
                out.append("audio_file_name: ");
                out.append(name);
                proof {
                    assert(out@ =~= body_with_marker(body@, name@));
                }
                marked = out;
            }
        },
        None => {
            let mut out = String::from_str("audio_file_name: ");
            out.append(name);
            out.append("\n");
            out.append(body);
            proof {
                assert(out@ =~= body_with_marker(body@, name@));
            }
            marked = out;
        },
    }
    marked.append("\n## Transcription\n");
    marked.append(transcription);
    proof {
        assert(marked@ =~= annotated_note(body@, name@, transcription@));
    }
    marked
}

} // verus!
