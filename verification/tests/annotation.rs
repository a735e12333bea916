use secretary::annotate::annotate_note;
use secretary::prompt::{build_prompt, TemplateError};
use secretary::title::derive_note_name;
use secretary::vault::header_contains;

#[test]
fn marker_goes_directly_after_the_first_delimiter() {
    let body = "---\ntitle: Memo\n---\nBody";
    let out = annotate_note(body, "memo.m4a", "hello world");
    assert_eq!(
        out,
        "---\naudio_file_name: memo.m4a\ntitle: Memo\n---\nBody\n## Transcription\nhello world"
    );
    // the marker line appears exactly once
    let marker = "audio_file_name: memo.m4a";
    assert_eq!(out.lines().filter(|l| *l == marker).count(), 1);
}

#[test]
fn marker_is_prepended_without_a_delimiter() {
    let out = annotate_note("Plain note", "memo.m4a", "hello");
    assert_eq!(
        out,
        "audio_file_name: memo.m4a\nPlain note\n## Transcription\nhello"
    );
    assert_eq!(
        out.lines().filter(|l| *l == "audio_file_name: memo.m4a").count(),
        1
    );
}

#[test]
fn marker_follows_a_delimiter_that_closes_the_body() {
    let out = annotate_note("abc\n---", "x.wav", "t");
    assert_eq!(out, "abc\n---\naudio_file_name: x.wav\n## Transcription\nt");
}

#[test]
fn delimiter_must_stand_alone_on_its_line() {
    // a "---" embedded in a line is no front-matter delimiter
    let out = annotate_note("a---b", "x.wav", "t");
    assert_eq!(out, "audio_file_name: x.wav\na---b\n## Transcription\nt");
}

#[test]
fn annotated_note_reparses_to_its_marker() {
    // the dedup scan's own parser finds the marker in what annotation wrote
    let out = annotate_note("---\ntitle: Memo\n---\nBody", "memo.m4a", "hello world");
    assert!(header_contains(&out, "audio_file_name: memo.m4a"));
    assert!(!header_contains(&out, "audio_file_name: other.m4a"));
    assert!(out.contains("\n## Transcription\nhello world"));
}

#[test]
fn transcript_is_appended_verbatim() {
    let out = annotate_note("", "n.ogg", "line one\nline two");
    assert!(out.ends_with("\n## Transcription\nline one\nline two"));
}

#[test]
fn title_is_extracted_from_the_first_marker() {
    assert_eq!(derive_note_name("title: My Recording\nrest of body"), "My Recording");
    assert_eq!(derive_note_name("---\ntitle: Memo\n---\nBody"), "Memo");
    assert_eq!(derive_note_name("title:   spaced out"), "spaced out");
}

#[test]
fn missing_title_falls_back_to_untitled() {
    assert_eq!(derive_note_name("no marker here"), "Untitled");
    assert_eq!(derive_note_name(""), "Untitled");
    // a marker with nothing on its line yields no title
    assert_eq!(derive_note_name("title:\nnext line"), "Untitled");
}

#[test]
fn prompt_substitutes_the_placeholder() {
    let p = build_prompt("Summarise this: {transcription}. Thanks.", "hello");
    assert_eq!(p, Ok("Summarise this: hello. Thanks.".to_string()));
}

#[test]
fn prompt_without_placeholder_is_rejected() {
    let p = build_prompt("no slot here", "hello");
    assert_eq!(p, Err(TemplateError::MissingPlaceholder));
}
