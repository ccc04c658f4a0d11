use whspr_app::devices::{
    apply_device_change, device_picker, fallback_notice, hotplug_notice, DeviceChange,
    NoticeUpdate,
};
use whspr_app::hotkey::{
    capture_outcome, current_hotkey_label, format_key_combo, CaptureOutcome, Key, Modifiers,
};
use whspr_app::hub::{
    api_key_row, banner_text, copy_enabled, status_device, listeners, record_label, speaker_row, transcript_body, transcript_words, update,
    visible_banners, BannerKind, HubConfig, HubEffect, HubMessage, HubState, Setting, Toggles,
    TRANSCRIPT_HINT,
};
use whspr_app::labels::{NumberFormat, SpeakerEmbeddingChoice};
use whspr_app::nav::{PipelineState, Screen, Theme};
use whspr_app::platform::Platform;
use whspr_app::secrets::SecretLocation;

fn names(list: &[&str]) -> Vec<String> {
    list.iter().map(|n| n.to_string()).collect()
}

fn config() -> HubConfig {
    HubConfig {
        language: None,
        embedding: SpeakerEmbeddingChoice::CamPlusPlus,
        numbers_format: NumberFormat::Digits,
        toggles: Toggles::all_off(),
        input_device: None,
        hotkey: None,
        refine_timeout_ms: 3000,
        pre_paste_delay_ms: 0,
        cookies_browser: None,
    }
}

fn no_modifiers() -> Modifiers {
    Modifiers { control: false, alt: false, shift: false, logo: false }
}

fn ctrl_shift() -> Modifiers {
    Modifiers { control: true, alt: false, shift: true, logo: false }
}

#[test]
fn fallback_notice_names_the_missing_device() {
    let notice = fallback_notice("USB Mic");
    assert!(notice.contains("USB Mic"));
    assert!(notice.contains("default microphone"));
}

#[test]
fn picker_filters_bluetooth_and_virtual_sources_by_the_toggles() {
    let connected = names(&["Built-in Microphone", "AirPods Pro", "BlackHole 2ch"]);
    let all = device_picker(&connected, connected.clone(), None);
    assert_eq!(all.options, connected);
    assert_eq!(all.note, None);
    let physical_only = device_picker(&connected, names(&["Built-in Microphone"]), None);
    assert_eq!(physical_only.options, names(&["Built-in Microphone"]));
    assert_eq!(physical_only.note, None);
}

#[test]
fn picker_keeps_a_filtered_out_selection_with_a_note() {
    let connected = names(&["Built-in Microphone", "AirPods Pro"]);
    let picker = device_picker(&connected, names(&["Built-in Microphone"]), Some("AirPods Pro"));
    assert_eq!(picker.options, names(&["Built-in Microphone", "AirPods Pro"]));
    assert!(picker.note.unwrap().contains("hidden by the source settings"));
}

#[test]
fn picker_keeps_a_disconnected_selection_with_the_fallback_notice() {
    let connected = names(&["Built-in Microphone"]);
    let picker = device_picker(&connected, connected.clone(), Some("USB Mic"));
    assert_eq!(picker.options, names(&["Built-in Microphone", "USB Mic"]));
    assert_eq!(picker.note, Some(fallback_notice("USB Mic")));
}

#[test]
fn a_hotplug_change_drops_removed_and_appends_added_devices() {
    let change = DeviceChange {
        added: names(&["USB Mic", "Built-in Microphone"]),
        removed: names(&["AirPods Pro"]),
    };
    let updated = apply_device_change(&names(&["Built-in Microphone", "AirPods Pro"]), &change);
    assert_eq!(updated, names(&["Built-in Microphone", "USB Mic"]));
}

#[test]
fn a_returning_device_clears_only_its_own_notice() {
    let back = DeviceChange { added: names(&["USB Mic"]), removed: Vec::new() };
    let notice = fallback_notice("USB Mic");
    assert!(matches!(
        hotplug_notice(Some("USB Mic"), &back, Some(notice.as_str())),
        NoticeUpdate::Clear
    ));
    assert!(matches!(
        hotplug_notice(Some("USB Mic"), &back, Some("something else")),
        NoticeUpdate::Keep
    ));
    assert!(matches!(hotplug_notice(None, &back, None), NoticeUpdate::Keep));
}

#[test]
fn formats_plain_character_key() {
    assert_eq!(format_key_combo(no_modifiers(), &Key::Character("d".into())), "D");
}

#[test]
fn formats_control_shift_character() {
    assert_eq!(format_key_combo(ctrl_shift(), &Key::Character("d".into())), "Ctrl+Shift+D");
}

#[test]
fn formats_named_key() {
    assert_eq!(format_key_combo(no_modifiers(), &Key::Named("Space".into())), "Space");
}

#[test]
fn formats_unidentified_key() {
    assert_eq!(format_key_combo(no_modifiers(), &Key::Unidentified), "?");
}

#[test]
fn formats_every_modifier_in_order() {
    let all = Modifiers { control: true, alt: true, shift: true, logo: true };
    assert_eq!(format_key_combo(all, &Key::Character("\u{df}".into())), "Ctrl+Alt+Shift+Cmd+SS");
}

#[test]
fn capture_outcome_binds_a_modifier_combo() {
    assert!(matches!(
        capture_outcome(ctrl_shift(), &Key::Character("d".into()), true),
        CaptureOutcome::Bound(c) if c == "Ctrl+Shift+D"
    ));
}

#[test]
fn capture_outcome_ignores_a_bare_key() {
    assert!(matches!(
        capture_outcome(no_modifiers(), &Key::Character("d".into()), true),
        CaptureOutcome::Incomplete
    ));
}

#[test]
fn capture_outcome_ignores_a_lone_modifier_press() {
    let ctrl = Modifiers { control: true, alt: false, shift: false, logo: false };
    assert!(matches!(
        capture_outcome(ctrl, &Key::Named("Control".into()), false),
        CaptureOutcome::Incomplete
    ));
}

#[test]
fn capture_outcome_cancels_on_escape() {
    assert!(matches!(
        capture_outcome(no_modifiers(), &Key::Named("Escape".into()), true),
        CaptureOutcome::Cancelled
    ));
}

#[test]
fn state_new_initializes_defaults() {
    let state = HubState::new(config());
    assert!(state.input_devices.is_empty());
    assert!(state.selected_device.is_none());
    assert!(!state.hotkey_capturing);
    assert!(state.captured_hotkey.is_none());
    assert_eq!(state.theme, Theme::Light);
    assert_eq!(state.screen, Screen::Dictate);
    assert_eq!(state.pipeline_state, PipelineState::Idle);
    assert!(state.last_error.is_none());
    assert!(state.notice.is_none());
    assert!(state.diarize_status.is_none());
}

#[test]
fn state_new_seeds_refine_timeout_draft_from_config() {
    let mut c = config();
    c.refine_timeout_ms = 12345;
    assert_eq!(HubState::new(c).refine_timeout_draft, "12345");
}

#[test]
fn state_new_seeds_pre_paste_delay_draft_from_config() {
    let mut c = config();
    c.pre_paste_delay_ms = 250;
    assert_eq!(HubState::new(c).pre_paste_delay_draft, "250");
}

#[test]
fn unplugging_the_configured_device_updates_the_list_and_warns() {
    let mut c = config();
    c.input_device = Some("USB Mic".to_string());
    let mut state = HubState::new(c);
    state.input_devices = names(&["Built-in Microphone", "USB Mic"]);
    let effect = update(
        &mut state,
        HubMessage::InputDevicesChanged(DeviceChange { added: vec![], removed: names(&["USB Mic"]) }),
    );
    assert!(matches!(effect, HubEffect::Nothing));
    assert_eq!(state.input_devices, names(&["Built-in Microphone"]));
    assert_eq!(state.notice, Some(fallback_notice("USB Mic")));
}

#[test]
fn typing_an_api_key_only_updates_the_draft() {
    let mut state = HubState::new(config());
    let effect = update(
        &mut state,
        HubMessage::ApiKeyDraftChanged("openai".to_string(), "sk-draft".to_string()),
    );
    assert!(matches!(effect, HubEffect::Nothing));
    assert_eq!(state.api_key_drafts.get("openai").map(String::as_str), Some("sk-draft"));
}

#[test]
fn saving_an_api_key_trims_it_and_a_refusal_restores_the_draft() {
    let mut state = HubState::new(config());
    update(&mut state, HubMessage::ApiKeyDraftChanged("openai".to_string(), " sk-1 ".to_string()));
    let effect = update(&mut state, HubMessage::ApiKeySubmitted("openai".to_string()));
    assert!(matches!(effect, HubEffect::SaveApiKey(ref id, ref key, ref draft)
        if id == "openai" && key == "sk-1" && draft == " sk-1 "));
    assert!(state.api_key_drafts.get("openai").is_none());
    update(
        &mut state,
        HubMessage::ApiKeySaveFinished("openai".to_string(), " sk-1 ".to_string(), Err("locked".to_string())),
    );
    assert_eq!(state.last_error.as_deref(), Some("API key not saved: locked"));
    assert_eq!(state.api_key_drafts.get("openai").map(String::as_str), Some(" sk-1 "));
    let blank = update(&mut state, HubMessage::ApiKeyDraftChanged("x".to_string(), "  ".to_string()));
    assert!(matches!(blank, HubEffect::Nothing));
    assert!(matches!(update(&mut state, HubMessage::ApiKeySubmitted("x".to_string())), HubEffect::Nothing));
}

#[test]
fn settings_edits_are_persisted() {
    let mut state = HubState::new(config());
    assert!(matches!(
        update(&mut state, HubMessage::LanguageChanged("de".to_string())),
        HubEffect::Persist
    ));
    assert_eq!(state.config.language.as_deref(), Some("de"));
    assert!(matches!(
        update(&mut state, HubMessage::LanguageChanged("auto".to_string())),
        HubEffect::Persist
    ));
    assert!(state.config.language.is_none());
    assert!(matches!(
        update(&mut state, HubMessage::Toggled(Setting::Translate, true)),
        HubEffect::Persist
    ));
    assert!(state.config.toggles.get(Setting::Translate));
    assert!(!state.config.toggles.get(Setting::Shorten));
    assert!(matches!(
        update(&mut state, HubMessage::Toggled(Setting::Autostart, true)),
        HubEffect::SetAutostart(true)
    ));
    assert!(matches!(
        update(&mut state, HubMessage::Toggled(Setting::TrayStatic, false)),
        HubEffect::RefreshTray(false)
    ));
    assert!(matches!(
        update(&mut state, HubMessage::DeviceSelected("USB Mic".to_string())),
        HubEffect::Persist
    ));
    assert_eq!(state.selected_device.as_deref(), Some("USB Mic"));
    assert_eq!(state.config.input_device.as_deref(), Some("USB Mic"));
}

#[test]
fn number_fields_keep_the_draft_and_commit_a_clamped_value() {
    let mut state = HubState::new(config());
    assert!(matches!(
        update(&mut state, HubMessage::RefineTimeoutMsChanged(" 900000 ".to_string())),
        HubEffect::Persist
    ));
    assert_eq!(state.config.refine_timeout_ms, 600_000);
    assert_eq!(state.refine_timeout_draft, " 900000 ");
    assert!(matches!(
        update(&mut state, HubMessage::RefineTimeoutMsChanged("".to_string())),
        HubEffect::Nothing
    ));
    assert_eq!(state.config.refine_timeout_ms, 600_000);
    assert_eq!(state.refine_timeout_draft, "");
    update(&mut state, HubMessage::PrePasteDelayMsChanged("+250".to_string()));
    assert_eq!(state.config.pre_paste_delay_ms, 250);
    update(&mut state, HubMessage::PrePasteDelayMsChanged("-1".to_string()));
    assert_eq!(state.config.pre_paste_delay_ms, 250);
}

#[test]
fn hotkey_capture_binds_cancels_or_keeps_listening() {
    let mut state = HubState::new(config());
    update(&mut state, HubMessage::StartHotkeyCapture);
    assert!(state.hotkey_capturing);
    update(&mut state, HubMessage::HotkeyCaptured(CaptureOutcome::Incomplete));
    assert!(state.hotkey_capturing);
    let effect = update(
        &mut state,
        HubMessage::HotkeyCaptured(CaptureOutcome::Bound("Ctrl+Shift+D".to_string())),
    );
    assert!(matches!(effect, HubEffect::Persist));
    assert!(!state.hotkey_capturing);
    assert_eq!(state.config.hotkey.as_deref(), Some("Ctrl+Shift+D"));
    assert_eq!(state.captured_hotkey.as_deref(), Some("Ctrl+Shift+D"));
    update(&mut state, HubMessage::StartHotkeyCapture);
    update(&mut state, HubMessage::HotkeyCaptured(CaptureOutcome::Cancelled));
    assert!(!state.hotkey_capturing);
    assert_eq!(state.config.hotkey.as_deref(), Some("Ctrl+Shift+D"));
}

#[test]
fn copy_disabled_without_a_transcript() {
    let state = HubState::new(config());
    assert!(!copy_enabled(&state));
}

#[test]
fn copy_disabled_for_a_blank_transcript() {
    let mut state = HubState::new(config());
    state.transcribed_text = Some("   ".to_string());
    assert!(!copy_enabled(&state));
    assert!(matches!(update(&mut state, HubMessage::CopyTranscript), HubEffect::Nothing));
}

#[test]
fn copy_enabled_with_a_real_transcript() {
    let mut state = HubState::new(config());
    state.transcribed_text = Some("hello world".to_string());
    assert!(copy_enabled(&state));
    assert!(matches!(update(&mut state, HubMessage::CopyTranscript),
        HubEffect::CopyToClipboard(ref t) if t == "hello world"));
}

#[test]
fn recording_round_trip_drives_the_pipeline_state() {
    let mut state = HubState::new(config());
    state.selected_device = Some("USB Mic".to_string());
    assert!(matches!(update(&mut state, HubMessage::ToggleRecording),
        HubEffect::StartCapture(Some(ref d)) if d == "USB Mic"));
    update(&mut state, HubMessage::CaptureStarted(Ok(())));
    assert!(state.is_recording);
    assert_eq!(state.pipeline_state, PipelineState::Recording);
    assert!(matches!(update(&mut state, HubMessage::ToggleRecording), HubEffect::StopCapture));
    assert!(!state.is_recording);
    assert!(matches!(
        update(&mut state, HubMessage::CaptureStopped(Ok(()))),
        HubEffect::TranscribeRecording
    ));
    assert_eq!(state.pipeline_state, PipelineState::Transcribing);
    assert!(matches!(update(&mut state, HubMessage::FileTranscribed(Ok("hi".to_string()))),
        HubEffect::RecordTranscript(ref t) if t == "hi"));
    assert_eq!(state.transcribed_text.as_deref(), Some("hi"));
    assert_eq!(state.transcribe_status.as_deref(), Some("Transcription complete"));
    assert_eq!(state.pipeline_state, PipelineState::Idle);
    update(&mut state, HubMessage::CaptureStarted(Err("no mic".to_string())));
    assert_eq!(state.transcribe_status.as_deref(), Some("Could not start recording: no mic"));
}

#[test]
fn diarize_and_transcribe_status_lines() {
    let mut state = HubState::new(config());
    update(&mut state, HubMessage::DiarizeFinished(Ok(12)));
    assert_eq!(state.diarize_status.as_deref(), Some("Diarization complete: 12 turn(s) found"));
    update(&mut state, HubMessage::FileToTranscribePicked(Some("/tmp/a.wav".to_string())));
    assert_eq!(state.transcribe_status.as_deref(), Some("Transcribing /tmp/a.wav..."));
    update(&mut state, HubMessage::LinkTranscribeStarted("Talk".to_string()));
    assert_eq!(state.transcribe_status.as_deref(), Some("Transcribing Talk\u{2026}"));
    assert_eq!(state.screen, Screen::Dictate);
}

#[test]
fn speaker_rename_needs_a_non_blank_draft() {
    let mut state = HubState::new(config());
    update(&mut state, HubMessage::SpeakerRenameInputChanged("s1".to_string(), "Ada".to_string()));
    assert!(matches!(update(&mut state, HubMessage::SpeakerRenameSubmitted("s1".to_string())),
        HubEffect::RenameSpeaker(ref id, ref name) if id == "s1" && name == "Ada"));
    assert!(state.speaker_rename_drafts.get("s1").is_none());
    update(&mut state, HubMessage::SpeakerRenameInputChanged("s2".to_string(), " ".to_string()));
    assert!(matches!(
        update(&mut state, HubMessage::SpeakerRenameSubmitted("s2".to_string())),
        HubEffect::Nothing
    ));
}

#[test]
fn the_screenshot_fires_once() {
    let mut state = HubState::new(config());
    assert!(matches!(update(&mut state, HubMessage::TakeScreenshot(false)), HubEffect::Nothing));
    assert!(matches!(update(&mut state, HubMessage::TakeScreenshot(true)), HubEffect::Screenshot));
    assert!(matches!(update(&mut state, HubMessage::TakeScreenshot(true)), HubEffect::Nothing));
}

#[test]
fn banners_put_errors_first_and_hide_onboarding() {
    let mut state = HubState::new(config());
    assert!(visible_banners(&state).is_empty());
    state.needs_model = true;
    assert_eq!(visible_banners(&state), vec![BannerKind::Onboarding]);
    state.notice = Some("n".to_string());
    assert_eq!(visible_banners(&state), vec![BannerKind::Notice, BannerKind::Onboarding]);
    state.last_error = Some("e".to_string());
    assert_eq!(visible_banners(&state), vec![BannerKind::Error, BannerKind::Notice]);
    update(&mut state, HubMessage::DismissNotice);
    assert_eq!(visible_banners(&state), vec![BannerKind::Error]);
}

#[test]
fn theme_and_tab_changes_touch_only_the_view() {
    let mut state = HubState::new(config());
    assert!(matches!(update(&mut state, HubMessage::ThemeToggled), HubEffect::Nothing));
    assert_eq!(state.theme, Theme::Dark);
    update(&mut state, HubMessage::TabSelected(Screen::Models));
    assert_eq!(state.screen, Screen::Models);
    update(&mut state, HubMessage::ImportStarted);
    assert_eq!(state.transcribe_status.as_deref(), Some("Importing\u{2026}"));
    update(&mut state, HubMessage::ImportFinished);
    assert!(state.transcribe_status.is_none());
}

#[test]
fn keys_are_heard_only_while_capturing_or_in_the_dialog() {
    let mut state = HubState::new(config());
    let idle = listeners(&state, false, true, false, true);
    assert!(!idle.capture_keys && !idle.dialog_keys && !idle.mic_meter);
    assert!(idle.tray_poll && !idle.tray_done_tick && idle.screenshot_timer);
    update(&mut state, HubMessage::StartHotkeyCapture);
    update(&mut state, HubMessage::TakeScreenshot(true));
    let capturing = listeners(&state, true, false, true, true);
    assert!(capturing.capture_keys && capturing.dialog_keys && capturing.tray_done_tick);
    assert!(!capturing.screenshot_timer);
}

#[test]
fn a_speaker_row_shows_the_draft_or_the_name() {
    let mut state = HubState::new(config());
    let row = speaker_row(&state, "id-7", &None, 3);
    assert_eq!(row.display, "id-7");
    assert_eq!(row.draft, "id-7");
    assert!(row.can_save);
    assert_eq!(row.scans_label, "3 scan(s)");
    update(&mut state, HubMessage::SpeakerRenameInputChanged("id-7".to_string(), "  ".to_string()));
    let row = speaker_row(&state, "id-7", &Some("Ada".to_string()), 1);
    assert_eq!(row.display, "Ada");
    assert_eq!(row.draft, "  ");
    assert!(!row.can_save);
}

#[test]
fn the_transcript_area_shows_the_text_or_the_hint() {
    let mut state = HubState::new(config());
    assert_eq!(transcript_words(&state), "0 words");
    assert_eq!(transcript_body(&state), TRANSCRIPT_HINT);
    assert_eq!(record_label(&state), "Record");
    state.transcribed_text = Some("  ".to_string());
    assert_eq!(transcript_body(&state), TRANSCRIPT_HINT);
    state.transcribed_text = Some("three small words".to_string());
    assert_eq!(transcript_words(&state), "3 words");
    assert_eq!(transcript_body(&state), "three small words");
    state.is_recording = true;
    assert_eq!(record_label(&state), "Stop");
}

#[test]
fn an_api_key_row_never_shows_the_saved_key() {
    let mut state = HubState::new(config());
    let row = api_key_row(&state, "openai", SecretLocation::Missing, Platform::Linux);
    assert_eq!(row.draft, "");
    assert_eq!(row.placeholder, "sk-...");
    assert!(!row.can_save && !row.can_remove);
    assert_eq!(row.caption, "Not set");
    update(&mut state, HubMessage::ApiKeyDraftChanged("openai".to_string(), "sk-2".to_string()));
    let row = api_key_row(&state, "openai", SecretLocation::Keystore, Platform::MacOs);
    assert_eq!(row.draft, "sk-2");
    assert_eq!(row.placeholder, "Paste a new key to replace it");
    assert!(row.can_save && row.can_remove);
    assert_eq!(row.caption, "Saved \u{2014} stored in Keychain");
}

#[test]
fn banners_and_the_rail_say_what_is_going_on() {
    let mut state = HubState::new(config());
    assert_eq!(status_device(&state), "No microphone");
    state.selected_device = Some("USB Mic".to_string());
    assert_eq!(status_device(&state), "USB Mic");
    state.last_error = Some("mic busy".to_string());
    state.notice = Some("copied".to_string());
    assert_eq!(banner_text(&state, BannerKind::Error), "Last worker error: mic busy");
    assert_eq!(banner_text(&state, BannerKind::Notice), "copied");
    assert_eq!(
        banner_text(&state, BannerKind::Onboarding),
        "Pick a speech model in Models to start dictating."
    );
}

#[test]
fn the_current_hotkey_is_the_rebound_one_or_the_default() {
    assert_eq!(current_hotkey_label(&None, "Ctrl+Space"), "Ctrl+Space");
    assert_eq!(current_hotkey_label(&Some("Alt+D".to_string()), "Ctrl+Space"), "Alt+D");
}

#[test]
fn state_preserves_initial_state() {
    let state = HubState::new(config());
    assert_eq!(state.theme, Theme::Light);
    assert_eq!(state.pipeline_state, PipelineState::Idle);
}

#[test]
fn the_encryption_setting_is_saved_only_after_a_successful_switch() {
    let mut state = HubState::new(config());
    assert!(matches!(update(&mut state, HubMessage::HistoryEncryptionSwitched(true)), HubEffect::Persist));
    assert!(matches!(update(&mut state, HubMessage::HistoryEncryptionSwitched(false)), HubEffect::Nothing));
    assert!(state.last_error.is_none());
}
