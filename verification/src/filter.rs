//! The audio-extension allow-list and the filter that retains only remote
//! files whose names denote audio recordings.

use vstd::prelude::*;

verus! {

use crate::text::{ends_with_ignore_ascii_case, suffix_matches_ci};

/// The lower-case file extensions accepted as audio recordings.
pub open spec fn audio_extensions() -> Seq<Seq<char>> {
    seq![
        ".mp3"@,
        ".mp4"@,
        ".mpeg"@,
        ".mpga"@,
        ".wav"@,
        ".m4a"@,
        ".flac"@,
        ".ogg"@,
        ".oga"@,
        ".webm"@,
    ]
}

/// A remote file name denotes audio when it ends, ignoring ASCII case,
/// with one of the accepted extensions.
pub open spec fn is_audio_name(name: Seq<char>) -> bool {
    exists|k: int|
        0 <= k < audio_extensions().len() && suffix_matches_ci(name, audio_extensions()[k])
}

/// The accepted audio file extensions, lower case, dot included.
pub fn audio_file_extensions() -> (r: Vec<&'static str>)
    ensures
        r@.len() == audio_extensions().len(),
        forall|k: int| 0 <= k < r@.len() ==> r@[k]@ == audio_extensions()[k],
{
    let mut r: Vec<&'static str> = Vec::new();
    r.push(".mp3");
    r.push(".mp4");
    r.push(".mpeg");
    r.push(".mpga");
    r.push(".wav");
    r.push(".m4a");
    r.push(".flac");
    r.push(".ogg");
    r.push(".oga");
    r.push(".webm");
    proof {
        assert(r@[0]@ == audio_extensions()[0]);
        assert(r@[1]@ == audio_extensions()[1]);
        assert(r@[2]@ == audio_extensions()[2]);
        assert(r@[3]@ == audio_extensions()[3]);
        assert(r@[4]@ == audio_extensions()[4]);
        assert(r@[5]@ == audio_extensions()[5]);
        assert(r@[6]@ == audio_extensions()[6]);
        assert(r@[7]@ == audio_extensions()[7]);
        assert(r@[8]@ == audio_extensions()[8]);
        assert(r@[9]@ == audio_extensions()[9]);
    }
    r
}

/// Decides whether a remote file name denotes an audio recording.
pub fn is_audio_file_name(name: &str) -> (r: bool)
    ensures
        r == is_audio_name(name@),
{
    let exts = audio_file_extensions();
    let mut k: usize = 0;
    while k < exts.len()
        invariant
            exts@.len() == audio_extensions().len(),
            forall|j: int| 0 <= j < exts@.len() ==> exts@[j]@ == audio_extensions()[j],
            k <= exts@.len(),
            forall|j: int| 0 <= j < k ==> !suffix_matches_ci(name@, audio_extensions()[j]),
        decreases exts@.len() - k,
    {
        if ends_with_ignore_ascii_case(name, exts[k]) {
            assert(suffix_matches_ci(name@, audio_extensions()[k as int]));
            return true;
        }
        k += 1;
    }
    false
}

} // verus!
