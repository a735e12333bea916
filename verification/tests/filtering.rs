use secretary::filter::{audio_file_extensions, is_audio_file_name};
use secretary::time::parse_timestamp_to_system_time;

#[test]
fn audio_extension_list_is_complete() {
    let exts = audio_file_extensions();
    assert_eq!(
        exts,
        vec![".mp3", ".mp4", ".mpeg", ".mpga", ".wav", ".m4a", ".flac", ".ogg", ".oga", ".webm"]
    );
}

#[test]
fn extension_filter_is_case_insensitive() {
    assert!(is_audio_file_name("a.MP3"));
    assert!(is_audio_file_name("a.wav"));
    assert!(!is_audio_file_name("a.txt"));
}

#[test]
fn extension_filter_needs_a_suffix_match() {
    assert!(is_audio_file_name("memo.m4a"));
    assert!(is_audio_file_name("voice note.FLAC"));
    assert!(!is_audio_file_name("mp3"));
    assert!(!is_audio_file_name("a.mp3.pdf"));
    assert!(!is_audio_file_name(""));
}

#[test]
fn timestamp_parses_to_epoch_milliseconds() {
    assert_eq!(
        parse_timestamp_to_system_time("2024-01-01T00:00:00Z"),
        Some(1_704_067_200_000)
    );
    assert_eq!(
        parse_timestamp_to_system_time("2024-01-01T00:00:01+00:00"),
        Some(1_704_067_201_000)
    );
}

#[test]
fn malformed_timestamp_is_rejected() {
    assert_eq!(parse_timestamp_to_system_time("not a date"), None);
    assert_eq!(parse_timestamp_to_system_time(""), None);
    assert_eq!(parse_timestamp_to_system_time("2024-13-40T99:00:00Z"), None);
}
