use secretary::audio_note::AudioNote;
use secretary::config::Config;
use secretary::metadata::DropboxFileMetadata;
use secretary::secretary::Secretary;
use secretary::time::parse_timestamp_to_system_time;
use secretary::vault::VaultDocument;

fn memo_metadata() -> DropboxFileMetadata {
    DropboxFileMetadata {
        name: "memo.m4a".to_string(),
        path_lower: "/audio/memo.m4a".to_string(),
        client_modified: "2024-01-01T00:00:00Z".to_string(),
        server_modified: "2024-01-01T00:00:00Z".to_string(),
        size: 2048,
    }
}

fn test_config() -> Config {
    Config {
        dropbox_client_id: "id".to_string(),
        dropbox_client_secret: "secret".to_string(),
        dropbox_access_token: "token".to_string(),
        dropbox_auth_token: "auth".to_string(),
        whisper_api_key: "wk".to_string(),
        openai_api_key: "ok".to_string(),
        obsidian_vault_path: "/vault".to_string(),
        dropbox_audio_path: "/audio".to_string(),
    }
}

#[test]
fn fresh_note_starts_from_its_metadata() {
    let note = AudioNote::new_from_metadata(&memo_metadata());
    assert_eq!(note.audio_file_metadata.name, "memo.m4a");
    assert_eq!(note.note_name, "memo.m4a");
    assert_eq!(note.transcription, "");
    assert_eq!(note.note, "");
    assert_eq!(note.local_audio_file_path, "");
    assert_eq!(note.note_path, "");
}

#[test]
fn newer_note_with_marker_excludes_the_file() {
    let note = AudioNote::new_from_metadata(&memo_metadata());
    let t = parse_timestamp_to_system_time("2024-01-01T00:00:00Z").unwrap();
    let doc = VaultDocument {
        name: "Memo.md".to_string(),
        modified_millis: t + 60_000,
        content: "---\naudio_file_name: memo.m4a\ntitle: Memo\n---\nBody".to_string(),
    };
    assert!(!note.check_if_new_file(&vec![doc]));
}

#[test]
fn older_note_with_marker_does_not_exclude() {
    // the note predates the audio: it cannot stem from processing it
    let note = AudioNote::new_from_metadata(&memo_metadata());
    let t = parse_timestamp_to_system_time("2024-01-01T00:00:00Z").unwrap();
    let doc = VaultDocument {
        name: "Memo.md".to_string(),
        modified_millis: t - 60_000,
        content: "---\naudio_file_name: memo.m4a\ntitle: Memo\n---\nBody".to_string(),
    };
    assert!(note.check_if_new_file(&vec![doc]));
}

#[test]
fn marker_outside_the_header_block_does_not_exclude() {
    let note = AudioNote::new_from_metadata(&memo_metadata());
    let t = parse_timestamp_to_system_time("2024-01-01T00:00:00Z").unwrap();
    let doc = VaultDocument {
        name: "Memo.md".to_string(),
        modified_millis: t + 60_000,
        content: "no front matter\naudio_file_name: memo.m4a".to_string(),
    };
    assert!(note.check_if_new_file(&vec![doc]));
}

#[test]
fn non_note_documents_are_ignored() {
    let note = AudioNote::new_from_metadata(&memo_metadata());
    let t = parse_timestamp_to_system_time("2024-01-01T00:00:00Z").unwrap();
    let doc = VaultDocument {
        name: "Memo.txt".to_string(),
        modified_millis: t + 60_000,
        content: "---\naudio_file_name: memo.m4a\n---\n".to_string(),
    };
    assert!(note.check_if_new_file(&vec![doc]));
}

#[test]
fn empty_vault_means_new() {
    let note = AudioNote::new_from_metadata(&memo_metadata());
    assert!(note.check_if_new_file(&Vec::new()));
}

#[test]
fn unparsable_server_time_fails_open() {
    let mut m = memo_metadata();
    m.server_modified = "garbage".to_string();
    let note = AudioNote::new_from_metadata(&m);
    let doc = VaultDocument {
        name: "Memo.md".to_string(),
        modified_millis: i64::MAX,
        content: "---\naudio_file_name: memo.m4a\n---\n".to_string(),
    };
    assert!(note.check_if_new_file(&vec![doc]));
}

#[test]
fn full_cycle_produces_the_expected_note() {
    let mut secretary = Secretary::new(test_config());

    // listing: one audio file, one stranger; empty vault
    let listing = vec![
        memo_metadata(),
        DropboxFileMetadata {
            name: "readme.txt".to_string(),
            path_lower: "/audio/readme.txt".to_string(),
            client_modified: "2024-01-01T00:00:00Z".to_string(),
            server_modified: "2024-01-01T00:00:00Z".to_string(),
            size: 7,
        },
    ];
    secretary.update_audio_notes(listing, &Vec::new());
    assert_eq!(secretary.audio_notes.len(), 1);

    // download, transcription and composition results, as the
    // collaborators would hand them back
    let mut note = secretary.audio_notes.remove(0);
    note.set_local_audio_file_path("/tmp/audio0".to_string());
    note.set_transcription("hello world".to_string());
    note.set_note("---\ntitle: Memo\n---\nBody".to_string());
    secretary.audio_notes.insert(0, note);

    secretary.clean_notes();
    secretary.prepare_notes();

    let done = &secretary.audio_notes[0];
    assert_eq!(done.note_name, "Memo");
    assert_eq!(done.note_path, "/vault/Memo.md");
    assert_eq!(
        done.note,
        "---\naudio_file_name: memo.m4a\ntitle: Memo\n---\nBody\n## Transcription\nhello world"
    );
}

#[test]
fn second_cycle_adds_nothing() {
    // first cycle, as in the full-cycle scenario
    let mut secretary = Secretary::new(test_config());
    secretary.update_audio_notes(vec![memo_metadata()], &Vec::new());
    assert_eq!(secretary.audio_notes.len(), 1);
    let mut note = secretary.audio_notes.remove(0);
    note.set_transcription("hello world".to_string());
    note.set_note("---\ntitle: Memo\n---\nBody".to_string());
    secretary.audio_notes.insert(0, note);
    secretary.clean_notes();
    secretary.prepare_notes();

    // the vault now holds the written note, newer than the audio
    let t = parse_timestamp_to_system_time("2024-01-01T00:00:00Z").unwrap();
    let written = VaultDocument {
        name: "Memo.md".to_string(),
        modified_millis: t + 60_000,
        content: secretary.audio_notes[0].note.clone(),
    };

    // second cycle: same listing, populated vault
    let mut second = Secretary::new(test_config());
    second.update_audio_notes(vec![memo_metadata()], &vec![written]);
    assert_eq!(second.audio_notes.len(), 0);
}

#[test]
fn listing_order_is_preserved() {
    let mut secretary = Secretary::new(test_config());
    let mut second = memo_metadata();
    second.name = "other.wav".to_string();
    secretary.update_audio_notes(vec![memo_metadata(), second], &Vec::new());
    assert_eq!(secretary.audio_notes.len(), 2);
    assert_eq!(secretary.audio_notes[0].note_name, "memo.m4a");
    assert_eq!(secretary.audio_notes[1].note_name, "other.wav");
}

#[test]
fn note_path_joins_vault_name_and_extension() {
    let mut note = AudioNote::new_from_metadata(&memo_metadata());
    note.set_note("title: Standup notes\n...".to_string());
    note.make_note_name_from_title();
    note.make_note_path(&"/home/user/vault".to_string());
    assert_eq!(note.note_path, "/home/user/vault/Standup notes.md");
}

#[test]
fn untitled_note_gets_the_default_path() {
    let mut note = AudioNote::new_from_metadata(&memo_metadata());
    note.set_note("body with no marker".to_string());
    note.make_note_name_from_title();
    note.make_note_path(&"/vault".to_string());
    assert_eq!(note.note_name, "Untitled");
    assert_eq!(note.note_path, "/vault/Untitled.md");
}

#[test]
fn empty_config_values_are_detected_and_filled() {
    let mut c = test_config();
    assert!(!c.has_empty_values());
    c.whisper_api_key = String::new();
    c.obsidian_vault_path = String::new();
    assert!(c.has_empty_values());

    let mut answers = test_config();
    answers.whisper_api_key = "answered-key".to_string();
    answers.obsidian_vault_path = "/answered".to_string();
    answers.openai_api_key = "ignored".to_string();
    c.prompt_and_update_if_empty(&answers);
    assert_eq!(c.whisper_api_key, "answered-key");
    assert_eq!(c.obsidian_vault_path, "/answered");
    // values already set are kept
    assert_eq!(c.openai_api_key, "ok");
    assert!(!c.has_empty_values());
}
