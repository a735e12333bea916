//! The pipeline orchestrator: sequences one polling cycle's stages over
//! the working set of audio notes. The network collaborators stay outside
//! the library; the orchestrator filters their listings, records their
//! results and prepares each note for persistence.

use vstd::prelude::*;

verus! {

use crate::annotate::annotated_note;
use crate::audio_note::{fresh_note, AudioNote, AudioNoteView};
use crate::config::Config;
use crate::filter::{is_audio_file_name, is_audio_name};
use crate::metadata::{DropboxFileMetadata, FileMetadataView};
use crate::note_extension;
use crate::time::rfc3339_millis;
use crate::title::derived_note_name;
use crate::vault::{docs_view, is_new_audio_file, VaultDocument, VaultDocumentView};

/// The orchestrator for one polling cycle: the configuration and the
/// cycle's working set, rebuilt from scratch every cycle.
pub struct Secretary {
    pub config: Config,
    pub audio_notes: Vec<AudioNote>,
}

/// The content of the working set.
pub open spec fn notes_view(notes: Seq<AudioNote>) -> Seq<AudioNoteView> {
    notes.map_values(|n: AudioNote| n@)
}

/// The content of one listing.
pub open spec fn metadata_view(files: Seq<DropboxFileMetadata>) -> Seq<FileMetadataView> {
    files.map_values(|m: DropboxFileMetadata| m@)
}

/// A listed file joins the working set when its name denotes audio and no
/// vault document shows it already processed.
pub open spec fn keep_file(m: FileMetadataView, docs: Seq<VaultDocumentView>) -> bool {
    is_audio_name(m.name) && is_new_audio_file(m.name, rfc3339_millis(m.server_modified), docs)
}

/// The fresh notes that one listing adds, in listing order.
pub open spec fn selected_notes(
    files: Seq<FileMetadataView>,
    docs: Seq<VaultDocumentView>,
) -> Seq<AudioNoteView>
    decreases files.len(),
{
    if files.len() == 0 {
        Seq::empty()
    } else if keep_file(files.last(), docs) {
        selected_notes(files.drop_last(), docs).push(fresh_note(files.last()))
    } else {
        selected_notes(files.drop_last(), docs)
    }
}

impl Secretary {
    /// An orchestrator with an empty working set.
    pub fn new(config: Config) -> (r: Secretary)
        ensures
            r.config == config,
            r.audio_notes@.len() == 0,
    {
        Secretary { config, audio_notes: Vec::new() }
    }

    /// One cycle's intake: keeps the listed files whose names denote audio
    /// and that the scanned vault shows unprocessed, and appends a fresh
    /// note for each, preserving the listing order.
    pub fn update_audio_notes(
        &mut self,
        files_metadata: Vec<DropboxFileMetadata>,
        vault_docs: &Vec<VaultDocument>,
    )
        ensures
            notes_view(final(self).audio_notes@) == notes_view(old(self).audio_notes@)
                + selected_notes(metadata_view(files_metadata@), docs_view(vault_docs@)),
            final(self).config == old(self).config,
    {
        let ghost fv = metadata_view(files_metadata@);
        let ghost dv = docs_view(vault_docs@);
        let mut idx: usize = 0;
        while idx < files_metadata.len()
            invariant
                idx <= files_metadata@.len(),
                fv == metadata_view(files_metadata@),
                dv == docs_view(vault_docs@),
                self.config == old(self).config,
                notes_view(self.audio_notes@) == notes_view(old(self).audio_notes@)
                    + selected_notes(fv.take(idx as int), dv),
            decreases files_metadata@.len() - idx,
        {
            let ghost notes_before = self.audio_notes@;
            let m = &files_metadata[idx];
            let mut kept: bool = false;
            if is_audio_file_name(m.name.as_str()) {
                let note = AudioNote::new_from_metadata(m);
                if note.check_if_new_file(vault_docs) {
                    self.audio_notes.push(note);
                    kept = true;
                }
            }
            proof {
                assert(fv.take(idx + 1).drop_last() =~= fv.take(idx as int));
                assert(fv.take(idx + 1).last() == fv[idx as int]);
                if kept {
                    assert(notes_view(self.audio_notes@) =~= notes_view(notes_before).push(
                        fresh_note(fv[idx as int]),
                    ));
                }
            }
            idx += 1;
        }
        proof {
            assert(fv.take(files_metadata@.len() as int) =~= fv);
        }
    }

    /// The annotation stage: every note of the working set has the marker
    /// line worked into its body and the transcript appended, each note
    /// exactly once, in working-set order.
    pub fn clean_notes(&mut self)
        ensures
            final(self).audio_notes@.len() == old(self).audio_notes@.len(),
            forall|i: int|
                0 <= i < old(self).audio_notes@.len() ==> final(self).audio_notes@[i]@
                    == (AudioNoteView {
                    note: annotated_note(
                        old(self).audio_notes@[i].note@,
                        old(self).audio_notes@[i].audio_file_metadata.name@,
                        old(self).audio_notes@[i].transcription@,
                    ),
                    ..old(self).audio_notes@[i]@
                }),
            final(self).config == old(self).config,
    {
        let mut i: usize = 0;
        while i < self.audio_notes.len()
            invariant
                self.config == old(self).config,
                self.audio_notes@.len() == old(self).audio_notes@.len(),
                i <= self.audio_notes@.len(),
                forall|j: int|
                    i <= j < self.audio_notes@.len() ==> self.audio_notes@[j] == old(
                        self,
                    ).audio_notes@[j],
                forall|j: int|
                    0 <= j < i ==> self.audio_notes@[j]@ == (AudioNoteView {
                        note: annotated_note(
                            old(self).audio_notes@[j].note@,
                            old(self).audio_notes@[j].audio_file_metadata.name@,
                            old(self).audio_notes@[j].transcription@,
                        ),
                        ..old(self).audio_notes@[j]@
                    }),
            decreases self.audio_notes@.len() - i,
        {
            let mut note = self.audio_notes.remove(i);
            note.annotate();
            self.audio_notes.insert(i, note);
            proof {
                assert(forall|j: int|
                    i + 1 <= j < self.audio_notes@.len() ==> self.audio_notes@[j] == old(
                        self,
                    ).audio_notes@[j]);
            }
            i += 1;
        }
    }

    /// The persistence preparation: every note's display name is derived
    /// from its body and its destination path from the configured vault
    /// directory, in working-set order. Writing the files is the caller's
    /// part. A known limitation: two notes that derive the same name get
    /// the same path, and the later write overwrites the earlier one
    /// silently; no collision renaming is performed.
    pub fn prepare_notes(&mut self)
        ensures
            final(self).audio_notes@.len() == old(self).audio_notes@.len(),
            forall|i: int|
                0 <= i < old(self).audio_notes@.len() ==> final(self).audio_notes@[i]@
                    == (AudioNoteView {
                    note_name: derived_note_name(old(self).audio_notes@[i].note@),
                    note_path: old(self).config.obsidian_vault_path@ + "/"@ + derived_note_name(
                        old(self).audio_notes@[i].note@,
                    ) + note_extension(),
                    ..old(self).audio_notes@[i]@
                }),
            final(self).config == old(self).config,
    {
        let mut i: usize = 0;
        while i < self.audio_notes.len()
            invariant
                self.config == old(self).config,
                self.audio_notes@.len() == old(self).audio_notes@.len(),
                i <= self.audio_notes@.len(),
                forall|j: int|
                    i <= j < self.audio_notes@.len() ==> self.audio_notes@[j] == old(
                        self,
                    ).audio_notes@[j],
                forall|j: int|
                    0 <= j < i ==> self.audio_notes@[j]@ == (AudioNoteView {
                        note_name: derived_note_name(old(self).audio_notes@[j].note@),
                        note_path: old(self).config.obsidian_vault_path@ + "/"@
                            + derived_note_name(old(self).audio_notes@[j].note@)
                            + note_extension(),
                        ..old(self).audio_notes@[j]@
                    }),
            decreases self.audio_notes@.len() - i,
        {
            let mut note = self.audio_notes.remove(i);
            note.make_note_name_from_title();
            note.make_note_path(&self.config.obsidian_vault_path);
            self.audio_notes.insert(i, note);
            proof {
                assert(forall|j: int|
                    i + 1 <= j < self.audio_notes@.len() ==> self.audio_notes@[j] == old(
                        self,
                    ).audio_notes@[j]);
            }
            i += 1;
        }
    }
}

} // verus!
