//! A note-taking pipeline library: it decides which remote audio files are
//! new, assembles a note for each from its transcription, and derives the
//! note's name and destination path, so that repeated polling never writes
//! a note twice for the same audio file.

pub mod annotate;
pub mod audio_note;
pub mod config;
pub mod filter;
pub mod metadata;
pub mod prompt;
pub mod secretary;
pub mod text;
pub mod time;
pub mod title;
pub mod vault;

use vstd::prelude::*;

verus! {

/// A line consisting solely of this token delimits a note's front-matter
/// header block.
pub open spec fn delimiter() -> Seq<char> {
    "---"@
}

/// The key that a note's header uses to name the source audio file.
pub open spec fn audio_marker_prefix() -> Seq<char> {
    "audio_file_name: "@
}

/// The header line that ties a note to the audio file it was made from.
pub open spec fn audio_marker_line(name: Seq<char>) -> Seq<char> {
    audio_marker_prefix() + name
}

/// The heading under which a note carries its raw transcript.
pub open spec fn transcription_heading() -> Seq<char> {
    "\n## Transcription\n"@
}

/// The extension of the documents in the notes vault.
pub open spec fn note_extension() -> Seq<char> {
    ".md"@
}

} // verus!
