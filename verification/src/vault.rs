//! The local note index: the scan over the vault's documents that decides
//! whether a remote audio file already has a note. The vault doubles as
//! the pipeline's only cross-cycle memory.

use vstd::prelude::*;

verus! {

use crate::audio_marker_line;
use crate::delimiter;
use crate::note_extension;
use crate::text::{
    ends_with,
    ends_with_exact,
    find_line,
    first_line_pos,
    is_line_at,
    lemma_first_line_pos,
    line_at,
};
use crate::time::rfc3339_millis;
use vstd::string::StringExecFns;

/// One document of the notes vault, as the scan found it: its file name,
/// when it was last modified (milliseconds since the Unix epoch) and its
/// text.
pub struct VaultDocument {
    pub name: String,
    pub modified_millis: i64,
    pub content: String,
}

/// The mathematical content of a `VaultDocument`.
pub struct VaultDocumentView {
    pub name: Seq<char>,
    pub modified_millis: i64,
    pub content: Seq<char>,
}

impl View for VaultDocument {
    type V = VaultDocumentView;

    open spec fn view(&self) -> VaultDocumentView {
        VaultDocumentView {
            name: self.name@,
            modified_millis: self.modified_millis,
            content: self.content@,
        }
    }
}

/// The content of a whole scanned vault.
pub open spec fn docs_view(docs: Seq<VaultDocument>) -> Seq<VaultDocumentView> {
    docs.map_values(|d: VaultDocument| d@)
}

/// The document's header block — the lines strictly between a delimiter
/// line at the very start and the next delimiter line — holds `line` as a
/// whole line.
pub open spec fn header_contains_line(doc: Seq<char>, line: Seq<char>) -> bool {
    &&& is_line_at(doc, delimiter(), 0)
    &&& match first_line_pos(doc, delimiter(), 1) {
        Some(p) => exists|i: int| 0 < i < p && is_line_at(doc, line, i),
        None => false,
    }
}

/// A vault document rules a candidate audio file out when it is a note
/// document (by extension), was modified after the candidate's
/// server-reported time, and its header block carries the candidate's
/// audio-file marker line. A document no newer than the audio cannot stem
/// from processing it and never blocks.
pub open spec fn doc_blocks(doc: VaultDocumentView, name: Seq<char>, audio_time: Option<i64>) -> bool {
    &&& ends_with(doc.name, note_extension())
    &&& match audio_time {
        Some(t) => doc.modified_millis > t,
        None => false,
    }
    &&& header_contains_line(doc.content, audio_marker_line(name))
}

/// A candidate is new when no vault document rules it out. A candidate
/// whose server-reported timestamp does not parse is treated as new, as is
/// every candidate against an empty scan: failing open never silently
/// loses audio.
pub open spec fn is_new_audio_file(
    name: Seq<char>,
    audio_time: Option<i64>,
    docs: Seq<VaultDocumentView>,
) -> bool {
    forall|k: int| 0 <= k < docs.len() ==> !doc_blocks(docs[k], name, audio_time)
}

/// Decides whether `line` stands inside the document's header block. The
/// line must not be empty: there is nothing to look for.
pub fn header_contains(doc: &str, line: &str) -> (r: bool)
    requires
        line@.len() > 0,
    ensures
        r == header_contains_line(doc@, line@),
{
    proof {
        reveal_strlit("---");
    }
    if !line_at(doc, "---", 0) {
        return false;
    }
    match find_line(doc, "---", 1) {
        None => false,
        Some(p) => {
            match find_line(doc, line, 1) {
                None => {
                    proof {
                        lemma_first_line_pos(doc@, line@, 1);
                    }
                    false
                },
                Some(i) => {
                    proof {
                        lemma_first_line_pos(doc@, line@, 1);
                    }
                    i < p
                },
            }
        },
    }
}

/// Scans the vault documents for one that rules the candidate out.
pub fn scan_is_new(name: &str, audio_time: Option<i64>, docs: &Vec<VaultDocument>) -> (r: bool)
    ensures
        r == is_new_audio_file(name@, audio_time, docs_view(docs@)),
{
    proof {
        reveal_strlit("audio_file_name: ");
    }
    let mut marker = String::from_str("audio_file_name: ");
    marker.append(name);
    let mut k: usize = 0;
    while k < docs.len()
        invariant
            marker@ == audio_marker_line(name@),
            marker@.len() > 0,
            k <= docs@.len(),
            forall|j: int| 0 <= j < k ==> !doc_blocks(docs_view(docs@)[j], name@, audio_time),
        decreases docs@.len() - k,
    {
        let doc = &docs[k];
        let is_note = ends_with_exact(doc.name.as_str(), ".md");
        let newer = match audio_time {
            Some(t) => doc.modified_millis > t,
            None => false,
        };
        if is_note && newer && header_contains(doc.content.as_str(), marker.as_str()) {
            assert(doc_blocks(docs_view(docs@)[k as int], name@, audio_time));
            return false;
        }
        assert(!doc_blocks(docs_view(docs@)[k as int], name@, audio_time));
        k += 1;
    }
    true
}

/// A note document written after the audio file's server-reported time,
/// whose header carries the candidate's marker line, keeps the candidate
/// out of the working set.
pub proof fn lemma_matching_newer_note_excludes(
    name: Seq<char>,
    t: i64,
    docs: Seq<VaultDocumentView>,
    k: int,
)
    requires
        0 <= k < docs.len(),
        ends_with(docs[k].name, note_extension()),
        docs[k].modified_millis > t,
        header_contains_line(docs[k].content, audio_marker_line(name)),
    ensures
        !is_new_audio_file(name, Some(t), docs),
{
    assert(doc_blocks(docs[k], name, Some(t)));
}

/// Documents no newer than the audio file's server-reported time never
/// keep it out: a candidate that postdates the whole vault is new.
pub proof fn lemma_stale_documents_do_not_exclude(
    name: Seq<char>,
    t: i64,
    docs: Seq<VaultDocumentView>,
)
    requires
        forall|k: int| 0 <= k < docs.len() ==> docs[k].modified_millis <= t,
    ensures
        is_new_audio_file(name, Some(t), docs),
{
}

} // verus!
