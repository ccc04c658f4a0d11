use whspr_app::link_import::{
    dialog_footer, update, CaptionTrack, Chapter, LinkEffect, LinkImport, LinkMessage, MediaInfo,
    PRIVACY_NOTE,
};

fn track(code: &str, url: &str, ext: &str) -> CaptionTrack {
    CaptionTrack { code: code.to_string(), url: Some(url.to_string()), ext: Some(ext.to_string()) }
}

fn sample_media(human: bool) -> MediaInfo {
    MediaInfo {
        title: "Lecture".to_string(),
        chapters: vec![
            Chapter { title: "One".to_string(), start_secs: 0, end_secs: 60 },
            Chapter { title: "Two".to_string(), start_secs: 60, end_secs: 120 },
        ],
        human_captions: if human {
            vec![track("en", "https://example.com/en.vtt", "vtt")]
        } else {
            Vec::new()
        },
        auto_captions: vec![track("de", "https://example.com/de.json3", "json3")],
        thumbnail: None,
    }
}

fn open_state() -> Option<LinkImport> {
    let mut dialog = None;
    assert!(matches!(update(&mut dialog, LinkMessage::Open), LinkEffect::Nothing));
    dialog
}

#[test]
fn open_seeds_a_dialog_and_cancel_clears_it() {
    let mut dialog = open_state();
    assert!(dialog.is_some());
    update(&mut dialog, LinkMessage::Cancel);
    assert!(dialog.is_none());
}

#[test]
fn escape_closes_the_dialog() {
    let mut dialog = open_state();
    update(&mut dialog, LinkMessage::EscapePressed);
    assert!(dialog.is_none());
}

#[test]
fn url_edits_are_stored() {
    let mut dialog = open_state();
    update(&mut dialog, LinkMessage::Url("https://x".to_string()));
    assert_eq!(dialog.as_ref().unwrap().url, "https://x");
}

#[test]
fn resolve_needs_a_url_and_marks_the_dialog_busy() {
    let mut dialog = open_state();
    update(&mut dialog, LinkMessage::Url("   ".to_string()));
    assert!(matches!(update(&mut dialog, LinkMessage::Resolve), LinkEffect::Nothing));
    assert!(!dialog.as_ref().unwrap().resolving);
    update(&mut dialog, LinkMessage::Url(" https://x ".to_string()));
    assert!(matches!(update(&mut dialog, LinkMessage::Resolve),
        LinkEffect::Resolve(ref u) if u == "https://x"));
    assert!(dialog.as_ref().unwrap().resolving);
}

#[test]
fn resolved_seeds_all_chapters_included() {
    let mut dialog = open_state();
    update(&mut dialog, LinkMessage::Resolved(Ok(sample_media(true))));
    let li = dialog.as_ref().unwrap();
    assert_eq!(li.chapters_included, vec![true, true]);
    assert!(li.media.is_some());
    assert!(!li.resolving);
}

#[test]
fn resolved_defaults_to_captions_when_a_human_track_exists() {
    let mut dialog = open_state();
    update(&mut dialog, LinkMessage::Resolved(Ok(sample_media(true))));
    let li = dialog.as_ref().unwrap();
    assert!(li.use_captions);
    assert_eq!(li.caption_lang.as_deref(), Some("en"));
}

#[test]
fn resolved_defaults_to_the_auto_caption_when_no_human_track() {
    let mut dialog = open_state();
    update(&mut dialog, LinkMessage::Resolved(Ok(sample_media(false))));
    let li = dialog.as_ref().unwrap();
    assert!(li.use_captions);
    assert_eq!(li.caption_lang.as_deref(), Some("de"));
}

#[test]
fn resolved_defaults_to_transcribe_without_any_captions() {
    let mut dialog = open_state();
    let mut media = sample_media(false);
    media.auto_captions.clear();
    update(&mut dialog, LinkMessage::Resolved(Ok(media)));
    let li = dialog.as_ref().unwrap();
    assert!(!li.use_captions);
    assert_eq!(li.caption_lang, None);
}

#[test]
fn resolved_error_is_recorded() {
    let mut dialog = open_state();
    update(&mut dialog, LinkMessage::Resolved(Err("boom".to_string())));
    let li = dialog.as_ref().unwrap();
    assert_eq!(li.error.as_deref(), Some("boom"));
    assert!(li.media.is_none());
}

#[test]
fn a_resolved_thumbnail_is_fetched() {
    let mut dialog = open_state();
    let mut media = sample_media(true);
    media.thumbnail = Some("https://example.com/t.jpg".to_string());
    assert!(matches!(update(&mut dialog, LinkMessage::Resolved(Ok(media))),
        LinkEffect::FetchThumbnail(ref u) if u == "https://example.com/t.jpg"));
}

#[test]
fn toggle_chapter_flips_one_flag() {
    let mut dialog = open_state();
    update(&mut dialog, LinkMessage::Resolved(Ok(sample_media(true))));
    update(&mut dialog, LinkMessage::ToggleChapter(0));
    assert_eq!(dialog.as_ref().unwrap().chapters_included, vec![false, true]);
    update(&mut dialog, LinkMessage::ToggleChapter(7));
    assert_eq!(dialog.as_ref().unwrap().chapters_included, vec![false, true]);
}

#[test]
fn the_import_plan_keeps_chosen_chapters_and_the_caption_track() {
    let mut dialog = open_state();
    update(&mut dialog, LinkMessage::Resolved(Ok(sample_media(false))));
    update(&mut dialog, LinkMessage::Url(" https://x ".to_string()));
    update(&mut dialog, LinkMessage::ToggleChapter(0));
    let plan = match update(&mut dialog, LinkMessage::Confirm) {
        LinkEffect::Import(plan) => plan,
        other => panic!("expected an import, got {other:?}"),
    };
    assert_eq!(plan.url, "https://x");
    assert_eq!(plan.title, "Lecture");
    assert!(plan.use_captions);
    assert_eq!(plan.headings.len(), 1);
    assert_eq!(plan.headings[0].time_label, "01:00");
    assert_eq!(plan.headings[0].title, "Two");
    assert_eq!(plan.caption_lang.as_deref(), Some("de"));
    assert!(!plan.human_track_selected);
    let t = plan.selected_track.expect("the auto track");
    assert_eq!(t.url.as_deref(), Some("https://example.com/de.json3"));
}

#[test]
fn confirm_does_nothing_before_a_resolve() {
    let mut dialog = open_state();
    update(&mut dialog, LinkMessage::Url("https://x".to_string()));
    assert!(matches!(update(&mut dialog, LinkMessage::Confirm), LinkEffect::Nothing));
    assert!(dialog.as_ref().unwrap().importing.is_none());
}

#[test]
fn link_import_tests_update_ignores_unrelated_messages() {
    let mut dialog: Option<LinkImport> = None;
    assert!(matches!(update(&mut dialog, LinkMessage::Resolve), LinkEffect::Nothing));
    assert!(matches!(update(&mut dialog, LinkMessage::Url("x".to_string())), LinkEffect::Nothing));
    assert!(dialog.is_none());
}

#[test]
fn imported_err_keeps_the_dialog_open_with_the_error() {
    let mut dialog = open_state();
    update(&mut dialog, LinkMessage::Progress(true, 40));
    update(&mut dialog, LinkMessage::Imported(Err("boom".to_string())));
    let li = dialog.as_ref().expect("dialog stays open on error");
    assert_eq!(li.error.as_deref(), Some("boom"));
    assert!(li.importing.is_none());
    assert!(li.import_progress.is_none());
}

#[test]
fn progress_reports_the_phase() {
    let mut dialog = open_state();
    update(&mut dialog, LinkMessage::Progress(true, 40));
    assert_eq!(dialog.as_ref().unwrap().importing.as_deref(), Some("Downloading audio\u{2026}"));
    update(&mut dialog, LinkMessage::Progress(false, 7));
    assert_eq!(dialog.as_ref().unwrap().importing.as_deref(), Some("Transcribing\u{2026}"));
    assert_eq!(dialog.as_ref().unwrap().import_progress, Some(7));
}

#[test]
fn transcribe_to_dictate_closes_the_dialog() {
    let mut dialog = open_state();
    update(&mut dialog, LinkMessage::Resolved(Ok(sample_media(true))));
    update(&mut dialog, LinkMessage::Url("https://x".to_string()));
    assert!(matches!(update(&mut dialog, LinkMessage::TranscribeToDictate),
        LinkEffect::TranscribeToDictate(ref u, ref t) if u == "https://x" && t == "Lecture"));
    assert!(dialog.is_none());
}

#[test]
fn the_footer_follows_the_import() {
    let mut dialog = open_state();
    let f = dialog_footer(dialog.as_ref().unwrap());
    assert_eq!(f.note, PRIVACY_NOTE);
    assert!(!f.live && !f.can_confirm && !f.can_transcribe);
    assert_eq!(f.confirm_label, "Open note desk \u{2192}");
    update(&mut dialog, LinkMessage::Resolved(Ok(sample_media(true))));
    assert!(dialog_footer(dialog.as_ref().unwrap()).can_confirm);
    update(&mut dialog, LinkMessage::Progress(false, 42));
    let f = dialog_footer(dialog.as_ref().unwrap());
    assert_eq!(f.note, "Transcribing\u{2026}  \u{b7}  42%");
    assert_eq!(f.progress, Some(42));
    assert!(f.live && !f.can_confirm && !f.can_transcribe);
    assert_eq!(f.confirm_label, "Importing\u{2026}");
}
