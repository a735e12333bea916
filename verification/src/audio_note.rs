//! The unit of work: one remote audio file's journey through the
//! pipeline, from fresh metadata snapshot to a named, annotated note
//! ready to persist.

use vstd::prelude::*;

verus! {

use crate::annotate::{annotate_note, annotated_note};
use crate::metadata::{DropboxFileMetadata, FileMetadataView};
use crate::note_extension;
use crate::time::{parse_timestamp_to_system_time, rfc3339_millis};
use crate::title::{derive_note_name, derived_note_name};
use crate::vault::{docs_view, is_new_audio_file, scan_is_new, VaultDocument};
use vstd::string::StringExecFns;

/// One audio file's working record. Each pipeline stage fills one field:
/// download the local audio path, transcription the transcript, the
/// composer the note body, and persistence the derived name and path.
pub struct AudioNote {
    pub audio_file_metadata: DropboxFileMetadata,
    pub transcription: String,
    pub note: String,
    pub note_name: String,
    pub local_audio_file_path: String,
    pub note_path: String,
}

/// The mathematical content of an `AudioNote`.
pub struct AudioNoteView {
    pub audio_file_metadata: FileMetadataView,
    pub transcription: Seq<char>,
    pub note: Seq<char>,
    pub note_name: Seq<char>,
    pub local_audio_file_path: Seq<char>,
    pub note_path: Seq<char>,
}

impl View for AudioNote {
    type V = AudioNoteView;

    open spec fn view(&self) -> AudioNoteView {
        AudioNoteView {
            audio_file_metadata: self.audio_file_metadata@,
            transcription: self.transcription@,
            note: self.note@,
            note_name: self.note_name@,
            local_audio_file_path: self.local_audio_file_path@,
            note_path: self.note_path@,
        }
    }
}

/// The record an audio file starts its journey as: an owned snapshot of
/// the remote metadata, named after the remote file, with every
/// pipeline-filled field still empty.
pub open spec fn fresh_note(m: FileMetadataView) -> AudioNoteView {
    AudioNoteView {
        audio_file_metadata: m,
        transcription: Seq::empty(),
        note: Seq::empty(),
        note_name: m.name,
        local_audio_file_path: Seq::empty(),
        note_path: Seq::empty(),
    }
}

impl AudioNote {
    /// Creates the working record for one remote audio file, cloning the
    /// metadata so nothing aliases the lister's cache.
    pub fn new_from_metadata(file_metadata: &DropboxFileMetadata) -> (r: AudioNote)
        ensures
            r@ == fresh_note(file_metadata@),
    {
        let audio_file_metadata = file_metadata.clone();
        let transcription = String::new();
        let note = String::new();
        let note_name = file_metadata.name.clone();
        let audio_file_path = String::new();
        let note_path = String::new();
        AudioNote {
            audio_file_metadata,
            transcription,
            note,
            note_name,
            local_audio_file_path: audio_file_path,
            note_path,
        }
    }

    /// Decides, against the scanned vault, whether this note's audio file
    /// is new — the idempotency gate of the whole pipeline.
    pub fn check_if_new_file(&self, vault_docs: &Vec<VaultDocument>) -> (r: bool)
        ensures
            r == is_new_audio_file(
                self.audio_file_metadata.name@,
                rfc3339_millis(self.audio_file_metadata.server_modified@),
                docs_view(vault_docs@),
            ),
    {
        let audio_time = parse_timestamp_to_system_time(
            self.audio_file_metadata.server_modified.as_str(),
        );
        scan_is_new(self.audio_file_metadata.name.as_str(), audio_time, vault_docs)
    }

    /// Records where the downloaded audio was written locally.
    pub fn set_local_audio_file_path(&mut self, path: String)
        ensures
            final(self)@ == (AudioNoteView { local_audio_file_path: path@, ..old(self)@ }),
    {
        self.local_audio_file_path = path;
    }

    /// Records the transcript returned for this note's audio.
    pub fn set_transcription(&mut self, text: String)
        ensures
            final(self)@ == (AudioNoteView { transcription: text@, ..old(self)@ }),
    {
        self.transcription = text;
    }

    /// Records the composed note body returned for this note's prompt.
    pub fn set_note(&mut self, body: String)
        ensures
            final(self)@ == (AudioNoteView { note: body@, ..old(self)@ }),
    {
        self.note = body;
    }

    /// Works the audio-file marker line into the note body and appends the
    /// raw transcript under its own heading.
    pub fn annotate(&mut self)
        ensures
            final(self)@ == (AudioNoteView {
                note: annotated_note(
                    old(self).note@,
                    old(self).audio_file_metadata.name@,
                    old(self).transcription@,
                ),
                ..old(self)@
            }),
    {
        let annotated = annotate_note(
            self.note.as_str(),
            self.audio_file_metadata.name.as_str(),
            self.transcription.as_str(),
        );
        self.note = annotated;
    }

    /// Derives the note's display name from a title in the composed body,
    /// falling back to the default name.
    pub fn make_note_name_from_title(&mut self)
        ensures
            final(self)@ == (AudioNoteView {
                note_name: derived_note_name(old(self).note@),
                ..old(self)@
            }),
    {
        let name = derive_note_name(self.note.as_str());
        self.note_name = name;
    }

    /// Derives the destination path: the vault directory joined with the
    /// note's name and the vault's document extension.
    pub fn make_note_path(&mut self, path: &String)
        ensures
            final(self)@ == (AudioNoteView {
                note_path: path@ + "/"@ + old(self).note_name@ + note_extension(),
                ..old(self)@
            }),
    {
        let mut p = path.clone();
        p.append("/");
        p.append(self.note_name.as_str());
        p.append(".md");
        self.note_path = p;
    }
}

} // verus!
