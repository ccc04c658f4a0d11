use whspr_app::hub::{HubConfig, HubEffect, HubMessage, HubState, Toggles, DIARIZE_UNAVAILABLE};
use whspr_app::labels::{NumberFormat, SpeakerEmbeddingChoice};
use whspr_app::link_import::{Chapter, LinkEffect, LinkMessage, MediaInfo};
use whspr_app::model_menu::{AsrChoice, AsrOption, ModelConfig, RefineChoice};
use whspr_app::models::{ModelsMessage, ModelsState};
use whspr_app::nav::Screen;
use whspr_app::note_desk::{DeskMessage, NoteHeading, Transcript, TranscriptSegment};
use whspr_app::session::{update, ImportedNote, Session, SessionEffect, SessionMessage};

fn hub_config() -> HubConfig {
    HubConfig {
        language: None,
        embedding: SpeakerEmbeddingChoice::CamPlusPlus,
        numbers_format: NumberFormat::Digits,
        toggles: Toggles::all_off(),
        input_device: None,
        hotkey: None,
        refine_timeout_ms: 3000,
        pre_paste_delay_ms: 0,
        cookies_browser: None,
    }
}

fn model_config() -> ModelConfig {
    ModelConfig {
        asr: AsrChoice::WhisperLocal,
        whisper_model_path: None,
        refine: RefineChoice::Noop,
        llama_model_path: None,
    }
}

fn session() -> Session {
    Session {
        hub: HubState::new(hub_config()),
        dialog: None,
        desk: None,
        models: ModelsState::new(model_config(), None, None, Vec::new(), None),
    }
}

fn sample_media() -> MediaInfo {
    MediaInfo {
        title: "Lecture".to_string(),
        chapters: vec![
            Chapter { title: "One".to_string(), start_secs: 0, end_secs: 60 },
            Chapter { title: "Two".to_string(), start_secs: 60, end_secs: 120 },
        ],
        human_captions: Vec::new(),
        auto_captions: Vec::new(),
        thumbnail: None,
    }
}

fn open_session() -> Session {
    let mut s = session();
    assert!(matches!(
        update(&mut s, SessionMessage::Link(LinkMessage::Open)),
        SessionEffect::Link(LinkEffect::Nothing)
    ));
    s
}

fn segment(text: &str, start_secs: u64, end_ms: u64) -> TranscriptSegment {
    TranscriptSegment { text: text.to_string(), start_secs, end_ms, speaker: None }
}

#[test]
fn confirm_starts_import_and_keeps_the_dialog_open() {
    let mut s = open_session();
    update(&mut s, SessionMessage::Link(LinkMessage::Resolved(Ok(sample_media()))));
    update(&mut s, SessionMessage::Link(LinkMessage::Url("https://x".to_string())));
    let effect = update(&mut s, SessionMessage::Link(LinkMessage::Confirm));
    assert!(matches!(effect, SessionEffect::Link(LinkEffect::Import(_))));
    assert!(s.dialog.is_some());
    assert!(s.hub.transcribe_status.is_some());
    assert_eq!(s.hub.transcribe_status.as_deref(), Some("Importing\u{2026}"));
}

#[test]
fn imported_ok_enters_the_note_desk() {
    let mut s = open_session();
    s.hub.transcribe_status = Some("Importing\u{2026}".to_string());
    let note = ImportedNote {
        title: "Lecture".to_string(),
        headings: Vec::new(),
        transcript: Transcript { text: "hello world".to_string(), segments: Vec::new() },
    };
    let effect = update(&mut s, SessionMessage::Imported(Ok(note)));
    assert!(s.dialog.is_none());
    assert!(s.desk.is_some());
    assert!(s.hub.transcribe_status.is_none());
    match effect {
        SessionEffect::Record(r) => {
            assert_eq!(r.text, "Lecture\nhello world");
            assert_eq!(r.duration_ms, None);
        }
        other => panic!("expected a history record, got {other:?}"),
    }
}

#[test]
fn an_import_records_its_title_and_the_end_of_its_last_segment() {
    let mut s = open_session();
    let note = ImportedNote {
        title: "Talk".to_string(),
        headings: vec![NoteHeading { time_label: "00:00".to_string(), title: "Intro".to_string() }],
        transcript: Transcript {
            text: "hi there".to_string(),
            segments: vec![segment("hi", 0, 1500), segment("there", 2, 4250)],
        },
    };
    let effect = update(&mut s, SessionMessage::Imported(Ok(note)));
    let desk = s.desk.as_ref().expect("the desk opens");
    assert_eq!(desk.title, "Talk");
    assert_eq!(desk.rows.len(), 2);
    assert_eq!(desk.rows[1].time_label, "00:02");
    assert_eq!(desk.headings.len(), 1);
    assert!(desk.export_status.is_none());
    match effect {
        SessionEffect::Record(r) => {
            assert_eq!(r.text, "Talk\nhi there");
            assert_eq!(r.duration_ms, Some(4250));
        }
        other => panic!("expected a history record, got {other:?}"),
    }
}

#[test]
fn a_failed_import_keeps_the_dialog_and_clears_the_status() {
    let mut s = open_session();
    s.hub.transcribe_status = Some("Importing\u{2026}".to_string());
    let effect = update(&mut s, SessionMessage::Imported(Err("boom".to_string())));
    assert!(matches!(effect, SessionEffect::Nothing));
    assert_eq!(s.dialog.as_ref().unwrap().error.as_deref(), Some("boom"));
    assert!(s.desk.is_none());
    assert!(s.hub.transcribe_status.is_none());
}

#[test]
fn a_link_sent_to_dictate_switches_the_hub() {
    let mut s = open_session();
    update(&mut s, SessionMessage::Link(LinkMessage::Resolved(Ok(sample_media()))));
    update(&mut s, SessionMessage::Link(LinkMessage::Url("https://x".to_string())));
    let effect = update(&mut s, SessionMessage::Link(LinkMessage::TranscribeToDictate));
    assert!(matches!(effect,
        SessionEffect::Link(LinkEffect::TranscribeToDictate(ref u, ref t))
            if u == "https://x" && t == "Lecture"));
    assert!(s.dialog.is_none());
    assert_eq!(s.hub.screen, Screen::Dictate);
    assert_eq!(s.hub.transcribe_status.as_deref(), Some("Transcribing Lecture\u{2026}"));
}

#[test]
fn each_message_reaches_only_its_own_screen() {
    let mut s = open_session();
    update(&mut s, SessionMessage::Desk(DeskMessage::EnterNoteDesk));
    assert!(s.desk.is_some());
    assert!(s.dialog.is_some());
    update(&mut s, SessionMessage::Hub(HubMessage::ImportStarted));
    assert_eq!(s.hub.transcribe_status.as_deref(), Some("Importing\u{2026}"));
    assert!(s.dialog.is_some());
    assert!(s.desk.is_some());
    update(&mut s, SessionMessage::Link(LinkMessage::Cancel));
    assert!(s.dialog.is_none());
    assert!(s.desk.is_some());
    update(&mut s, SessionMessage::Models(ModelsMessage::AsrSelected(
        AsrOption::Cloud(AsrChoice::OpenAi),
        String::new(),
    )));
    assert_eq!(s.models.status.as_deref(), Some("Now transcribing with OpenAI (cloud)."));
    assert_eq!(s.hub.transcribe_status.as_deref(), Some("Importing\u{2026}"));
}

#[test]
fn a_picked_recording_without_a_speaker_model_asks_for_one() {
    let mut s = session();
    let effect = update(&mut s, SessionMessage::Hub(HubMessage::RecordingPicked(
        Some("/tmp/a.wav".to_string()),
        false,
        Some("/data/speakers.json".to_string()),
    )));
    assert!(matches!(effect, SessionEffect::Hub(HubEffect::Nothing)));
    assert!(s.hub.needs_speaker_model);
    assert_eq!(s.hub.diarize_status.as_deref(), Some(DIARIZE_UNAVAILABLE));
}

#[test]
fn a_picked_recording_with_a_speaker_model_is_diarized() {
    let mut s = session();
    let effect = update(&mut s, SessionMessage::Hub(HubMessage::RecordingPicked(
        Some("/tmp/a.wav".to_string()),
        true,
        Some("/data/speakers.json".to_string()),
    )));
    assert!(matches!(effect,
        SessionEffect::Hub(HubEffect::Diarize(ref p, ref d))
            if p == "/tmp/a.wav" && d == "/data/speakers.json"));
    assert!(!s.hub.needs_speaker_model);
    assert_eq!(s.hub.diarize_status.as_deref(), Some("Diarizing /tmp/a.wav..."));
}

#[test]
fn a_picked_recording_without_a_data_directory_says_so() {
    let mut s = session();
    let effect = update(&mut s, SessionMessage::Hub(HubMessage::RecordingPicked(
        Some("/tmp/a.wav".to_string()),
        true,
        None,
    )));
    assert!(matches!(effect, SessionEffect::Hub(HubEffect::Nothing)));
    assert_eq!(
        s.hub.diarize_status.as_deref(),
        Some("Could not determine the app data directory")
    );
}

#[test]
fn no_recording_picked_changes_nothing() {
    let mut s = session();
    let effect = update(&mut s, SessionMessage::Hub(HubMessage::RecordingPicked(None, true, None)));
    assert!(matches!(effect, SessionEffect::Hub(HubEffect::Nothing)));
    assert!(s.hub.diarize_status.is_none());
    assert!(!s.hub.needs_speaker_model);
}
