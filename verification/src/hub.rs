//! The Hub's state and its transitions: what each user action or finished
//! background job does to the Hub, and which piece of outside work (saving
//! the config, starting a capture, copying to the clipboard, ...) the
//! caller has to perform next.

use vstd::prelude::*;

use crate::devices::{
    after_change, apply_device_change, hotplug_notice, names_view, notice_decision, DeviceChange,
    NoticeUpdate,
};
use crate::hotkey::CaptureOutcome;
use crate::labels::{
    embedding_from_label, embedding_of_label, language_from_label, language_of_label,
    number_format_from_label, number_format_of_label, NumberFormat, SpeakerEmbeddingChoice,
};
use crate::nav::{toggle_theme, toggled_theme, PipelineState, Screen, SettingsSection, Theme};
use crate::history::{matching_entries, words_label, words_label_of};
use crate::platform::Platform;
use crate::secrets::{location_caption, location_caption_of, SecretLocation};
use crate::string_map::StringMap;
use crate::text::{
    all_ws, chars_of, clone_opt, decimal, digits_value, is_blank, opt_view, parse_u64,
    parses_as_u64, push_decimal, push_str, string_from_chars, trim, trimmed, unsigned_digits,
    word_count, word_count_of,
};

verus! {

/// Names one of the config's on/off switches.
#[derive(Debug, Clone, Copy, PartialEq, Eq, Structural)]
pub enum Setting {
    NoiseSuppression,
    Translate,
    Shorten,
    AutoSend,
    InputFieldDetection,
    MicPrivacy,
    DeviceHotplug,
    ActiveWindow,
    BluetoothSource,
    VirtualSource,
    TrayStatic,
    NormalizeNumbers,
    NormalizeDates,
    NormalizeTimes,
    ParagraphBreak,
    PunctuationToggle,
    SoundFeedback,
    Autostart,
}

/// How many switches there are.
pub const SETTING_COUNT: usize = 18;

/// The position of switch `s` among the [`Toggles`].
pub open spec fn setting_index(s: Setting) -> int {
    match s {
        Setting::NoiseSuppression => 0,
        Setting::Translate => 1,
        Setting::Shorten => 2,
        Setting::AutoSend => 3,
        Setting::InputFieldDetection => 4,
        Setting::MicPrivacy => 5,
        Setting::DeviceHotplug => 6,
        Setting::ActiveWindow => 7,
        Setting::BluetoothSource => 8,
        Setting::VirtualSource => 9,
        Setting::TrayStatic => 10,
        Setting::NormalizeNumbers => 11,
        Setting::NormalizeDates => 12,
        Setting::NormalizeTimes => 13,
        Setting::ParagraphBreak => 14,
        Setting::PunctuationToggle => 15,
        Setting::SoundFeedback => 16,
        Setting::Autostart => 17,
    }
}

/// The position of switch `s` among the [`Toggles`].
pub fn setting_position(s: Setting) -> (i: usize)
    ensures
        i == setting_index(s),
        i < SETTING_COUNT,
{
    match s {
        Setting::NoiseSuppression => 0,
        Setting::Translate => 1,
        Setting::Shorten => 2,
        Setting::AutoSend => 3,
        Setting::InputFieldDetection => 4,
        Setting::MicPrivacy => 5,
        Setting::DeviceHotplug => 6,
        Setting::ActiveWindow => 7,
        Setting::BluetoothSource => 8,
        Setting::VirtualSource => 9,
        Setting::TrayStatic => 10,
        Setting::NormalizeNumbers => 11,
        Setting::NormalizeDates => 12,
        Setting::NormalizeTimes => 13,
        Setting::ParagraphBreak => 14,
        Setting::PunctuationToggle => 15,
        Setting::SoundFeedback => 16,
        Setting::Autostart => 17,
    }
}

/// The on/off switches of the config, one per [`Setting`].
#[derive(Debug)]
pub struct Toggles {
    values: Vec<bool>,
}

impl View for Toggles {
    type V = Seq<bool>;

    closed spec fn view(&self) -> Seq<bool> {
        self.values@
    }
}

impl Toggles {
    /// One value per switch.
    pub closed spec fn wf(&self) -> bool {
        self.values@.len() == SETTING_COUNT
    }

    /// Every switch off.
    pub fn all_off() -> (t: Self)
        ensures
            t.wf(),
            t@ == Seq::new(SETTING_COUNT as nat, |i: int| false),
    {
        let mut values: Vec<bool> = Vec::new();
        let mut i: usize = 0;
        while i < SETTING_COUNT
            invariant
                i <= SETTING_COUNT,
                values@ == Seq::new(i as nat, |j: int| false),
            decreases SETTING_COUNT - i,
        {
            values.push(false);
            i += 1;
            assert(values@ =~= Seq::new(i as nat, |j: int| false));
        }
        Toggles { values }
    }

    /// The value of switch `s`.
    pub fn get(&self, s: Setting) -> (b: bool)
        requires
            self.wf(),
        ensures
            b == toggle_of(self@, s),
    {
        self.values[setting_position(s)]
    }

    /// Sets switch `s` to `v`, leaving the others as they are.
    pub fn set(&mut self, s: Setting, v: bool)
        requires
            old(self).wf(),
        ensures
            final(self).wf(),
            final(self)@ == with_toggle(old(self)@, s, v),
    {
        let i = setting_position(s);
        self.values.set(i, v);
    }
}

/// The value of switch `s`.
pub open spec fn toggle_of(t: Seq<bool>, s: Setting) -> bool {
    t[setting_index(s)]
}

/// `t` with switch `s` set to `v`.
pub open spec fn with_toggle(t: Seq<bool>, s: Setting, v: bool) -> Seq<bool> {
    t.update(setting_index(s), v)
}

/// The part of the persisted config that the Hub edits.
#[derive(Debug)]
pub struct HubConfig {
    /// The transcription language override (`None` detects it).
    pub language: Option<String>,
    pub embedding: SpeakerEmbeddingChoice,
    pub numbers_format: NumberFormat,
    pub toggles: Toggles,
    /// The chosen input device, by name.
    pub input_device: Option<String>,
    /// The push-to-talk combo, as `format_key_combo` renders it.
    pub hotkey: Option<String>,
    pub refine_timeout_ms: u64,
    pub pre_paste_delay_ms: u64,
    /// The browser whose cookies media imports borrow.
    pub cookies_browser: Option<String>,
}

/// A [`HubConfig`] as plain values.
#[verifier::ext_equal]
pub struct ConfigView {
    pub language: Option<Seq<char>>,
    pub embedding: SpeakerEmbeddingChoice,
    pub numbers_format: NumberFormat,
    pub toggles: Seq<bool>,
    pub input_device: Option<Seq<char>>,
    pub hotkey: Option<Seq<char>>,
    pub refine_timeout_ms: u64,
    pub pre_paste_delay_ms: u64,
    pub cookies_browser: Option<Seq<char>>,
}

impl View for HubConfig {
    type V = ConfigView;

    open spec fn view(&self) -> ConfigView {
        ConfigView {
            language: opt_view(self.language),
            embedding: self.embedding,
            numbers_format: self.numbers_format,
            toggles: self.toggles@,
            input_device: opt_view(self.input_device),
            hotkey: opt_view(self.hotkey),
            refine_timeout_ms: self.refine_timeout_ms,
            pre_paste_delay_ms: self.pre_paste_delay_ms,
            cookies_browser: opt_view(self.cookies_browser),
        }
    }
}

/// The Hub's state apart from its windows, widgets and background handles.
#[derive(Debug)]
pub struct HubState {
    pub config: HubConfig,
    /// The input devices currently connected, by name.
    pub input_devices: Vec<String>,
    pub selected_device: Option<String>,
    /// Listening for the next key combo to bind as the hotkey.
    pub hotkey_capturing: bool,
    /// The combo bound during this session, for display.
    pub captured_hotkey: Option<String>,
    pub theme: Theme,
    pub screen: Screen,
    pub settings_section: SettingsSection,
    pub history_search: String,
    pub pipeline_state: PipelineState,
    pub last_error: Option<String>,
    /// A calm status line, shown until dismissed or replaced.
    pub notice: Option<String>,
    pub diarize_status: Option<String>,
    pub transcribe_status: Option<String>,
    /// The text of the last transcription, shown on the Dictate screen.
    pub transcribed_text: Option<String>,
    pub is_recording: bool,
    /// No speech model is installed yet: the first-run prompt shows.
    pub needs_model: bool,
    /// A recording was picked for diarization but no speaker model is
    /// installed: the prompt to install one shows.
    pub needs_speaker_model: bool,
    /// The refine-timeout field as typed, which may not parse yet.
    pub refine_timeout_draft: String,
    /// The pre-paste-delay field as typed.
    pub pre_paste_delay_draft: String,
    pub screenshot_taken: bool,
    /// Rename drafts, by speaker id.
    pub speaker_rename_drafts: StringMap,
    /// API-key drafts, by backend id.
    pub api_key_drafts: StringMap,
}

/// A [`HubState`] as plain values.
#[verifier::ext_equal]
pub struct HubView {
    pub config: ConfigView,
    pub input_devices: Seq<Seq<char>>,
    pub selected_device: Option<Seq<char>>,
    pub hotkey_capturing: bool,
    pub captured_hotkey: Option<Seq<char>>,
    pub theme: Theme,
    pub screen: Screen,
    pub settings_section: SettingsSection,
    pub history_search: Seq<char>,
    pub pipeline_state: PipelineState,
    pub last_error: Option<Seq<char>>,
    pub notice: Option<Seq<char>>,
    pub diarize_status: Option<Seq<char>>,
    pub transcribe_status: Option<Seq<char>>,
    pub transcribed_text: Option<Seq<char>>,
    pub is_recording: bool,
    pub needs_model: bool,
    pub needs_speaker_model: bool,
    pub refine_timeout_draft: Seq<char>,
    pub pre_paste_delay_draft: Seq<char>,
    pub screenshot_taken: bool,
    pub speaker_rename_drafts: Map<Seq<char>, Seq<char>>,
    pub api_key_drafts: Map<Seq<char>, Seq<char>>,
}

impl View for HubState {
    type V = HubView;

    open spec fn view(&self) -> HubView {
        HubView {
            config: self.config@,
            input_devices: names_view(self.input_devices@),
            selected_device: opt_view(self.selected_device),
            hotkey_capturing: self.hotkey_capturing,
            captured_hotkey: opt_view(self.captured_hotkey),
            theme: self.theme,
            screen: self.screen,
            settings_section: self.settings_section,
            history_search: self.history_search@,
            pipeline_state: self.pipeline_state,
            last_error: opt_view(self.last_error),
            notice: opt_view(self.notice),
            diarize_status: opt_view(self.diarize_status),
            transcribe_status: opt_view(self.transcribe_status),
            transcribed_text: opt_view(self.transcribed_text),
            is_recording: self.is_recording,
            needs_model: self.needs_model,
            needs_speaker_model: self.needs_speaker_model,
            refine_timeout_draft: self.refine_timeout_draft@,
            pre_paste_delay_draft: self.pre_paste_delay_draft@,
            screenshot_taken: self.screenshot_taken,
            speaker_rename_drafts: self.speaker_rename_drafts@,
            api_key_drafts: self.api_key_drafts@,
        }
    }
}

impl HubState {
    /// Both draft maps are well formed.
    pub open spec fn wf(&self) -> bool {
        &&& self.config.toggles.wf()
        &&& self.speaker_rename_drafts.wf()
        &&& self.api_key_drafts.wf()
    }

    /// The Hub as it opens on `config`: Dictate screen, light theme, idle
    /// pipeline, nothing pending, and the number fields showing the
    /// configured values.
    pub fn new(config: HubConfig) -> (s: Self)
        requires
            config.toggles.wf(),
        ensures
            s.wf(),
            s@ == initial_view(config@),
    {
        let mut refine_timeout_draft = String::new();
        push_decimal(&mut refine_timeout_draft, config.refine_timeout_ms);
        let mut pre_paste_delay_draft = String::new();
        push_decimal(&mut pre_paste_delay_draft, config.pre_paste_delay_ms);
        let s = HubState {
            config,
            input_devices: Vec::new(),
            selected_device: None,
            hotkey_capturing: false,
            captured_hotkey: None,
            theme: Theme::Light,
            screen: Screen::Dictate,
            settings_section: SettingsSection::General,
            history_search: String::new(),
            pipeline_state: PipelineState::Idle,
            last_error: None,
            notice: None,
            diarize_status: None,
            transcribe_status: None,
            transcribed_text: None,
            is_recording: false,
            needs_model: false,
            needs_speaker_model: false,
            refine_timeout_draft,
            pre_paste_delay_draft,
            screenshot_taken: false,
            speaker_rename_drafts: StringMap::new(),
            api_key_drafts: StringMap::new(),
        };
        assert(s@.input_devices =~= Seq::<Seq<char>>::empty());
        assert(s@ =~= initial_view(config@));
        s
    }
}

/// The Hub as it opens on config `c`.
pub open spec fn initial_view(c: ConfigView) -> HubView {
    HubView {
        config: c,
        input_devices: Seq::empty(),
        selected_device: None,
        hotkey_capturing: false,
        captured_hotkey: None,
        theme: Theme::Light,
        screen: Screen::Dictate,
        settings_section: SettingsSection::General,
        history_search: Seq::empty(),
        pipeline_state: PipelineState::Idle,
        last_error: None,
        notice: None,
        diarize_status: None,
        transcribe_status: None,
        transcribed_text: None,
        is_recording: false,
        needs_model: false,
        needs_speaker_model: false,
        refine_timeout_draft: decimal(c.refine_timeout_ms as nat),
        pre_paste_delay_draft: decimal(c.pre_paste_delay_ms as nat),
        screenshot_taken: false,
        speaker_rename_drafts: Map::empty(),
        api_key_drafts: Map::empty(),
    }
}

/// What happened in the Hub: a user action, or a background job that
/// finished.
#[derive(Debug)]
pub enum HubMessage {
    /// A language label was picked (`auto` clears the override).
    LanguageChanged(String),
    /// A speaker-embedding label was picked.
    EmbeddingModelSelected(String),
    /// A number-format label was picked.
    NumberFormatSelected(String),
    /// A switch was flipped.
    Toggled(Setting, bool),
    /// An input device was picked.
    DeviceSelected(String),
    /// "Change hotkey" was clicked.
    StartHotkeyCapture,
    /// A key was pressed while capturing; `capture_outcome` decided this.
    HotkeyCaptured(CaptureOutcome),
    ThemeToggled,
    TabSelected(Screen),
    SettingsSectionSelected(SettingsSection),
    HistorySearchChanged(String),
    CopyTranscript,
    DismissNotice,
    /// The transcribe file picker closed, with the chosen path if any.
    FileToTranscribePicked(Option<String>),
    /// A transcription finished, with its text or an error.
    FileTranscribed(Result<String, String>),
    /// The record button was clicked.
    ToggleRecording,
    /// Starting a capture succeeded or failed.
    CaptureStarted(Result<(), String>),
    /// Stopping a capture gave audio to transcribe, or failed.
    CaptureStopped(Result<(), String>),
    /// The diarize file picker closed: the chosen recording if any, whether
    /// a speaker model is installed, and where the speaker database lives
    /// (`None` when the platform has no data directory).
    RecordingPicked(Option<String>, bool, Option<String>),
    /// A diarization run finished, with the number of turns or an error.
    DiarizeFinished(Result<u64, String>),
    /// A speaker's rename field changed: speaker id, draft.
    SpeakerRenameInputChanged(String, String),
    /// A speaker's rename was submitted: speaker id.
    SpeakerRenameSubmitted(String),
    /// The refine-timeout field changed.
    RefineTimeoutMsChanged(String),
    /// The pre-paste-delay field changed.
    PrePasteDelayMsChanged(String),
    /// The media-import sign-in browser was picked.
    CookieBrowserChanged(Option<String>),
    /// Input devices were plugged in or out.
    InputDevicesChanged(DeviceChange),
    /// An API-key field changed: backend id, draft.
    ApiKeyDraftChanged(String, String),
    /// The one-shot screenshot is due; `window_open` says whether the Hub
    /// window exists yet.
    TakeScreenshot(bool),
    /// A link import started.
    ImportStarted,
    /// A link import finished, either way.
    ImportFinished,
    /// The history-encryption switch was flipped: whether switching the
    /// history over succeeded.
    HistoryEncryptionSwitched(bool),
    /// A link is being transcribed onto the Dictate screen: the media
    /// title.
    LinkTranscribeStarted(String),
    /// An API key's Save was clicked: backend id.
    ApiKeySubmitted(String),
    /// Saving an API key finished: backend id, the draft it came from, and
    /// the error if the keystore refused it.
    ApiKeySaveFinished(String, String, Result<(), String>),
    /// Removing an API key finished, with the error if the keystore kept it.
    ApiKeyRemoveFinished(Result<(), String>),
}

/// The outside work a transition asks for.
#[derive(Debug)]
pub enum HubEffect {
    /// Nothing to do.
    Nothing,
    /// Save the config.
    Persist,
    /// Install or remove the launch-at-login entry, then save the config.
    SetAutostart(bool),
    /// Redraw the tray icon (static or animated), then save the config.
    RefreshTray(bool),
    /// Put this text on the clipboard.
    CopyToClipboard(String),
    /// Transcribe the file at this path.
    Transcribe(String),
    /// Transcribe the audio the capture just finished.
    TranscribeRecording,
    /// Record a finished transcription in the history.
    RecordTranscript(String),
    /// Start capturing from this input device (`None`: the default one).
    StartCapture(Option<String>),
    /// Stop the capture in progress.
    StopCapture,
    /// Rename a speaker and save the speaker database: id, new name.
    RenameSpeaker(String, String),
    /// Capture the Hub window to the screenshot file.
    Screenshot,
    /// Save this API key: backend id, trimmed key, and the draft to give
    /// back with the result.
    SaveApiKey(String, String, String),
    /// Diarize this recording and save the speaker database to this path.
    Diarize(String, String),
}

/// A [`HubEffect`] as plain values.
pub enum EffectView {
    Nothing,
    Persist,
    SetAutostart(bool),
    RefreshTray(bool),
    CopyToClipboard(Seq<char>),
    Transcribe(Seq<char>),
    TranscribeRecording,
    RecordTranscript(Seq<char>),
    StartCapture(Option<Seq<char>>),
    StopCapture,
    RenameSpeaker(Seq<char>, Seq<char>),
    Screenshot,
    SaveApiKey(Seq<char>, Seq<char>, Seq<char>),
    Diarize(Seq<char>, Seq<char>),
}

impl View for HubEffect {
    type V = EffectView;

    open spec fn view(&self) -> EffectView {
        match self {
            HubEffect::Nothing => EffectView::Nothing,
            HubEffect::Persist => EffectView::Persist,
            HubEffect::SetAutostart(b) => EffectView::SetAutostart(*b),
            HubEffect::RefreshTray(b) => EffectView::RefreshTray(*b),
            HubEffect::CopyToClipboard(t) => EffectView::CopyToClipboard(t@),
            HubEffect::Transcribe(p) => EffectView::Transcribe(p@),
            HubEffect::TranscribeRecording => EffectView::TranscribeRecording,
            HubEffect::RecordTranscript(t) => EffectView::RecordTranscript(t@),
            HubEffect::StartCapture(d) => EffectView::StartCapture(opt_view(*d)),
            HubEffect::StopCapture => EffectView::StopCapture,
            HubEffect::RenameSpeaker(id, name) => EffectView::RenameSpeaker(id@, name@),
            HubEffect::Screenshot => EffectView::Screenshot,
            HubEffect::SaveApiKey(id, key, draft) => EffectView::SaveApiKey(id@, key@, draft@),
            HubEffect::Diarize(path, db) => EffectView::Diarize(path@, db@),
        }
    }
}

/// The largest refine timeout, in milliseconds.
pub const MAX_REFINE_TIMEOUT_MS: u64 = 600_000;

/// The largest pre-paste delay, in milliseconds.
pub const MAX_PRE_PASTE_DELAY_MS: u64 = 10_000;

/// The value a number field commits, if its trimmed text parses: the parsed
/// number capped at `max`.
pub open spec fn committed_number(text: Seq<char>, max: u64) -> Option<u64> {
    let t = trim(text);
    if parses_as_u64(t) {
        let v = digits_value(unsigned_digits(t));
        Some(if v <= max { v as u64 } else { max })
    } else {
        None
    }
}

/// The effect a flipped switch asks for.
pub open spec fn toggle_effect(s: Setting, v: bool) -> EffectView {
    match s {
        Setting::Autostart => EffectView::SetAutostart(v),
        Setting::TrayStatic => EffectView::RefreshTray(v),
        _ => EffectView::Persist,
    }
}

/// The notice after a hotplug change.
pub open spec fn notice_after(
    notice: Option<Seq<char>>,
    configured: Option<Seq<char>>,
    change: DeviceChange,
) -> Option<Seq<char>> {
    match notice_decision(
        configured,
        names_view(change.added@),
        names_view(change.removed@),
        notice,
    ) {
        None => notice,
        Some(n) => n,
    }
}

/// The Hub after message `m`.
pub open spec fn hub_next(s: HubView, m: HubMessage) -> HubView {
    match m {
        HubMessage::LanguageChanged(label) => HubView {
            config: ConfigView { language: language_of_label(label@), ..s.config },
            ..s
        },
        HubMessage::EmbeddingModelSelected(label) => HubView {
            config: ConfigView { embedding: embedding_of_label(label@), ..s.config },
            ..s
        },
        HubMessage::NumberFormatSelected(label) => HubView {
            config: ConfigView { numbers_format: number_format_of_label(label@), ..s.config },
            ..s
        },
        HubMessage::Toggled(which, v) => HubView {
            config: ConfigView { toggles: with_toggle(s.config.toggles, which, v), ..s.config },
            ..s
        },
        HubMessage::DeviceSelected(d) => HubView {
            config: ConfigView { input_device: Some(d@), ..s.config },
            selected_device: Some(d@),
            ..s
        },
        HubMessage::StartHotkeyCapture => HubView { hotkey_capturing: true, ..s },
        HubMessage::HotkeyCaptured(o) => match o {
            CaptureOutcome::Bound(combo) => HubView {
                config: ConfigView { hotkey: Some(combo@), ..s.config },
                captured_hotkey: Some(combo@),
                hotkey_capturing: false,
                ..s
            },
            CaptureOutcome::Cancelled => HubView { hotkey_capturing: false, ..s },
            CaptureOutcome::Incomplete => s,
        },
        HubMessage::ThemeToggled => HubView { theme: toggled_theme(s.theme), ..s },
        HubMessage::TabSelected(screen) => HubView { screen, ..s },
        HubMessage::SettingsSectionSelected(section) => HubView {
            settings_section: section,
            ..s
        },
        HubMessage::HistorySearchChanged(q) => HubView { history_search: q@, ..s },
        HubMessage::CopyTranscript => s,
        HubMessage::DismissNotice => HubView { notice: None, ..s },
        HubMessage::FileToTranscribePicked(p) => match p {
            Some(path) => HubView {
                transcribe_status: Some("Transcribing "@ + path@ + "..."@),
                transcribed_text: None,
                ..s
            },
            None => s,
        },
        HubMessage::FileTranscribed(r) => match r {
            Ok(text) => HubView {
                transcribe_status: Some("Transcription complete"@),
                transcribed_text: Some(text@),
                pipeline_state: PipelineState::Idle,
                ..s
            },
            Err(e) => HubView {
                transcribe_status: Some("Transcription failed: "@ + e@),
                pipeline_state: PipelineState::Idle,
                ..s
            },
        },
        HubMessage::ToggleRecording => if s.is_recording {
            HubView { is_recording: false, ..s }
        } else {
            s
        },
        HubMessage::CaptureStarted(r) => match r {
            Ok(_) => HubView {
                is_recording: true,
                transcribe_status: Some("Recording... click Stop to transcribe"@),
                pipeline_state: PipelineState::Recording,
                ..s
            },
            Err(e) => HubView {
                transcribe_status: Some("Could not start recording: "@ + e@),
                pipeline_state: PipelineState::Idle,
                ..s
            },
        },
        HubMessage::CaptureStopped(r) => match r {
            Ok(_) => HubView {
                transcribe_status: Some("Transcribing recording..."@),
                transcribed_text: None,
                pipeline_state: PipelineState::Transcribing,
                ..s
            },
            Err(e) => HubView {
                transcribe_status: Some("Recording failed: "@ + e@),
                pipeline_state: PipelineState::Idle,
                ..s
            },
        },
        HubMessage::RecordingPicked(p, model_available, db_path) => match p {
            None => s,
            Some(path) => if !model_available {
                HubView {
                    needs_speaker_model: true,
                    diarize_status: Some(DIARIZE_UNAVAILABLE@),
                    ..s
                }
            } else if db_path is Some {
                HubView { diarize_status: Some("Diarizing "@ + path@ + "..."@), ..s }
            } else {
                HubView {
                    diarize_status: Some("Could not determine the app data directory"@),
                    ..s
                }
            },
        },
        HubMessage::DiarizeFinished(r) => match r {
            Ok(count) => HubView {
                diarize_status: Some(
                    "Diarization complete: "@ + decimal(count as nat) + " turn(s) found"@,
                ),
                ..s
            },
            Err(e) => HubView { diarize_status: Some("Diarization failed: "@ + e@), ..s },
        },
        HubMessage::SpeakerRenameInputChanged(id, draft) => HubView {
            speaker_rename_drafts: s.speaker_rename_drafts.insert(id@, draft@),
            ..s
        },
        HubMessage::SpeakerRenameSubmitted(id) => HubView {
            speaker_rename_drafts: s.speaker_rename_drafts.remove(id@),
            ..s
        },
        HubMessage::RefineTimeoutMsChanged(text) => match committed_number(
            text@,
            MAX_REFINE_TIMEOUT_MS,
        ) {
            Some(v) => HubView {
                refine_timeout_draft: text@,
                config: ConfigView { refine_timeout_ms: v, ..s.config },
                ..s
            },
            None => HubView { refine_timeout_draft: text@, ..s },
        },
        HubMessage::PrePasteDelayMsChanged(text) => match committed_number(
            text@,
            MAX_PRE_PASTE_DELAY_MS,
        ) {
            Some(v) => HubView {
                pre_paste_delay_draft: text@,
                config: ConfigView { pre_paste_delay_ms: v, ..s.config },
                ..s
            },
            None => HubView { pre_paste_delay_draft: text@, ..s },
        },
        HubMessage::CookieBrowserChanged(b) => HubView {
            config: ConfigView { cookies_browser: opt_view(b), ..s.config },
            ..s
        },
        HubMessage::InputDevicesChanged(change) => HubView {
            input_devices: after_change(
                s.input_devices,
                names_view(change.added@),
                names_view(change.removed@),
            ),
            notice: notice_after(s.notice, s.config.input_device, change),
            ..s
        },
        HubMessage::ApiKeyDraftChanged(id, draft) => HubView {
            api_key_drafts: s.api_key_drafts.insert(id@, draft@),
            ..s
        },
        HubMessage::TakeScreenshot(window_open) => if window_open && !s.screenshot_taken {
            HubView { screenshot_taken: true, ..s }
        } else {
            s
        },
        HubMessage::ImportStarted => HubView {
            transcribe_status: Some("Importing\u{2026}"@),
            ..s
        },
        HubMessage::ImportFinished => HubView { transcribe_status: None, ..s },
        HubMessage::LinkTranscribeStarted(title) => HubView {
            screen: Screen::Dictate,
            transcribed_text: None,
            transcribe_status: Some("Transcribing "@ + title@ + "\u{2026}"@),
            ..s
        },
        HubMessage::ApiKeySubmitted(id) => HubView {
            api_key_drafts: s.api_key_drafts.remove(id@),
            ..s
        },
        HubMessage::ApiKeySaveFinished(id, draft, r) => match r {
            Ok(_) => s,
            Err(e) => HubView {
                last_error: Some("API key not saved: "@ + e@),
                api_key_drafts: s.api_key_drafts.insert(id@, draft@),
                ..s
            },
        },
        HubMessage::ApiKeyRemoveFinished(r) => match r {
            Ok(_) => s,
            Err(e) => HubView { last_error: Some("API key not fully removed: "@ + e@), ..s },
        },
        HubMessage::HistoryEncryptionSwitched(_) => s,
    }
}

/// The outside work message `m` asks for in state `s`.
pub open spec fn hub_effect(s: HubView, m: HubMessage) -> EffectView {
    match m {
        HubMessage::LanguageChanged(_) => EffectView::Persist,
        HubMessage::EmbeddingModelSelected(_) => EffectView::Persist,
        HubMessage::NumberFormatSelected(_) => EffectView::Persist,
        HubMessage::Toggled(which, v) => toggle_effect(which, v),
        HubMessage::DeviceSelected(_) => EffectView::Persist,
        HubMessage::HotkeyCaptured(o) => match o {
            CaptureOutcome::Bound(_) => EffectView::Persist,
            _ => EffectView::Nothing,
        },
        HubMessage::CopyTranscript => match s.transcribed_text {
            Some(t) => if all_ws(t) {
                EffectView::Nothing
            } else {
                EffectView::CopyToClipboard(t)
            },
            None => EffectView::Nothing,
        },
        HubMessage::FileToTranscribePicked(p) => match p {
            Some(path) => EffectView::Transcribe(path@),
            None => EffectView::Nothing,
        },
        HubMessage::FileTranscribed(r) => match r {
            Ok(text) => EffectView::RecordTranscript(text@),
            Err(_) => EffectView::Nothing,
        },
        HubMessage::ToggleRecording => if s.is_recording {
            EffectView::StopCapture
        } else {
            EffectView::StartCapture(s.selected_device)
        },
        HubMessage::CaptureStopped(r) => match r {
            Ok(_) => EffectView::TranscribeRecording,
            Err(_) => EffectView::Nothing,
        },
        HubMessage::RecordingPicked(p, model_available, db_path) => match (p, db_path) {
            (Some(path), Some(db)) => if model_available {
                EffectView::Diarize(path@, db@)
            } else {
                EffectView::Nothing
            },
            _ => EffectView::Nothing,
        },
        HubMessage::SpeakerRenameSubmitted(id) => if s.speaker_rename_drafts.contains_key(id@)
            && !all_ws(s.speaker_rename_drafts[id@]) {
            EffectView::RenameSpeaker(id@, s.speaker_rename_drafts[id@])
        } else {
            EffectView::Nothing
        },
        HubMessage::RefineTimeoutMsChanged(text) => if committed_number(
            text@,
            MAX_REFINE_TIMEOUT_MS,
        ).is_some() {
            EffectView::Persist
        } else {
            EffectView::Nothing
        },
        HubMessage::PrePasteDelayMsChanged(text) => if committed_number(
            text@,
            MAX_PRE_PASTE_DELAY_MS,
        ).is_some() {
            EffectView::Persist
        } else {
            EffectView::Nothing
        },
        HubMessage::CookieBrowserChanged(_) => EffectView::Persist,
        HubMessage::TakeScreenshot(window_open) => if window_open && !s.screenshot_taken {
            EffectView::Screenshot
        } else {
            EffectView::Nothing
        },
        HubMessage::ApiKeySubmitted(id) => {
            let draft = if s.api_key_drafts.contains_key(id@) {
                s.api_key_drafts[id@]
            } else {
                Seq::empty()
            };
            if trim(draft).len() == 0 {
                EffectView::Nothing
            } else {
                EffectView::SaveApiKey(id@, trim(draft), draft)
            }
        },
        HubMessage::ApiKeySaveFinished(_, _, r) => if r is Ok {
            EffectView::Persist
        } else {
            EffectView::Nothing
        },
        HubMessage::ApiKeyRemoveFinished(_) => EffectView::Persist,
        HubMessage::HistoryEncryptionSwitched(switched) => if switched {
            EffectView::Persist
        } else {
            EffectView::Nothing
        },
        _ => EffectView::Nothing,
    }
}

/// The number a field's text commits, if it parses (see
/// [`committed_number`]).
pub fn commit_number(text: &str, max: u64) -> (r: Option<u64>)
    ensures
        r == committed_number(text@, max),
{
    let t = trimmed(&chars_of(text));
    match parse_u64(&t) {
        Some(v) => Some(
            if v <= max {
                v
            } else {
                max
            },
        ),
        None => None,
    }
}

fn status(prefix: &str, body: &str, suffix: &str) -> (s: String)
    ensures
        s@ == prefix@ + body@ + suffix@,
{
    let mut s = String::new();
    push_str(&mut s, prefix);
    push_str(&mut s, body);
    push_str(&mut s, suffix);
    assert(s@ =~= prefix@ + body@ + suffix@);
    s
}

fn on_config_label(state: &mut HubState, message: HubMessage) -> (e: HubEffect)
    requires
        old(state).wf(),
        message is LanguageChanged || message is EmbeddingModelSelected
            || message is NumberFormatSelected || message is CookieBrowserChanged
            || message is DeviceSelected,
    ensures
        final(state).wf(),
        final(state)@ == hub_next(old(state)@, message),
        e@ == hub_effect(old(state)@, message),
{
    let ghost s0 = state@;
    match message {
        HubMessage::LanguageChanged(label) => {
            state.config.language = language_from_label(label.as_str());
            assert(state@.config =~= hub_next(s0, HubMessage::LanguageChanged(label)).config);
        },
        HubMessage::EmbeddingModelSelected(label) => {
            state.config.embedding = embedding_from_label(label.as_str());
        },
        HubMessage::NumberFormatSelected(label) => {
            state.config.numbers_format = number_format_from_label(label.as_str());
        },
        HubMessage::CookieBrowserChanged(b) => {
            state.config.cookies_browser = b;
        },
        HubMessage::DeviceSelected(d) => {
            state.config.input_device = Some(d.clone());
            state.selected_device = Some(d);
        },
        _ => {},
    }
    HubEffect::Persist
}

fn on_toggle(state: &mut HubState, which: Setting, v: bool) -> (e: HubEffect)
    requires
        old(state).wf(),
    ensures
        final(state).wf(),
        final(state)@ == hub_next(old(state)@, HubMessage::Toggled(which, v)),
        e@ == hub_effect(old(state)@, HubMessage::Toggled(which, v)),
{
    state.config.toggles.set(which, v);
    match which {
        Setting::Autostart => HubEffect::SetAutostart(v),
        Setting::TrayStatic => HubEffect::RefreshTray(v),
        _ => HubEffect::Persist,
    }
}

fn on_hotkey(state: &mut HubState, o: CaptureOutcome) -> (e: HubEffect)
    requires
        old(state).wf(),
    ensures
        final(state).wf(),
        final(state)@ == hub_next(old(state)@, HubMessage::HotkeyCaptured(o)),
        e@ == hub_effect(old(state)@, HubMessage::HotkeyCaptured(o)),
{
    match o {
        CaptureOutcome::Bound(combo) => {
            state.captured_hotkey = Some(combo.clone());
            state.config.hotkey = Some(combo);
            state.hotkey_capturing = false;
            HubEffect::Persist
        },
        CaptureOutcome::Cancelled => {
            state.hotkey_capturing = false;
            HubEffect::Nothing
        },
        CaptureOutcome::Incomplete => HubEffect::Nothing,
    }
}

fn on_view_message(state: &mut HubState, message: HubMessage) -> (e: HubEffect)
    requires
        old(state).wf(),
        message is StartHotkeyCapture || message is ThemeToggled || message is TabSelected
            || message is SettingsSectionSelected || message is HistorySearchChanged
            || message is DismissNotice || message is TakeScreenshot,
    ensures
        final(state).wf(),
        final(state)@ == hub_next(old(state)@, message),
        e@ == hub_effect(old(state)@, message),
{
    match message {
        HubMessage::StartHotkeyCapture => {
            state.hotkey_capturing = true;
            HubEffect::Nothing
        },
        HubMessage::ThemeToggled => {
            state.theme = toggle_theme(state.theme);
            HubEffect::Nothing
        },
        HubMessage::TabSelected(screen) => {
            state.screen = screen;
            HubEffect::Nothing
        },
        HubMessage::SettingsSectionSelected(section) => {
            state.settings_section = section;
            HubEffect::Nothing
        },
        HubMessage::HistorySearchChanged(q) => {
            state.history_search = q;
            HubEffect::Nothing
        },
        HubMessage::DismissNotice => {
            state.notice = None;
            HubEffect::Nothing
        },
        HubMessage::TakeScreenshot(window_open) => {
            if window_open && !state.screenshot_taken {
                state.screenshot_taken = true;
                HubEffect::Screenshot
            } else {
                HubEffect::Nothing
            }
        },
        _ => HubEffect::Nothing,
    }
}

fn on_copy(state: &HubState) -> (e: HubEffect)
    ensures
        e@ == hub_effect(state@, HubMessage::CopyTranscript),
{
    match &state.transcribed_text {
        Some(text) => if is_blank(text.as_str()) {
            HubEffect::Nothing
        } else {
            HubEffect::CopyToClipboard(text.clone())
        },
        None => HubEffect::Nothing,
    }
}

fn on_transcription(state: &mut HubState, message: HubMessage) -> (e: HubEffect)
    requires
        old(state).wf(),
        message is FileToTranscribePicked || message is FileTranscribed,
    ensures
        final(state).wf(),
        final(state)@ == hub_next(old(state)@, message),
        e@ == hub_effect(old(state)@, message),
{
    proof {
        reveal_strlit("");
    }
    match message {
        HubMessage::FileToTranscribePicked(Some(path)) => {
            state.transcribe_status = Some(status("Transcribing ", path.as_str(), "..."));
            state.transcribed_text = None;
            HubEffect::Transcribe(path)
        },
        HubMessage::FileTranscribed(Ok(text)) => {
            state.transcribe_status = Some(String::from_str("Transcription complete"));
            state.transcribed_text = Some(text.clone());
            state.pipeline_state = PipelineState::Idle;
            HubEffect::RecordTranscript(text)
        },
        HubMessage::FileTranscribed(Err(e)) => {
            state.transcribe_status = Some(status("Transcription failed: ", e.as_str(), ""));
            state.pipeline_state = PipelineState::Idle;
            HubEffect::Nothing
        },
        _ => HubEffect::Nothing,
    }
}

fn on_capture(state: &mut HubState, message: HubMessage) -> (e: HubEffect)
    requires
        old(state).wf(),
        message is ToggleRecording || message is CaptureStarted || message is CaptureStopped,
    ensures
        final(state).wf(),
        final(state)@ == hub_next(old(state)@, message),
        e@ == hub_effect(old(state)@, message),
{
    proof {
        reveal_strlit("");
    }
    match message {
        HubMessage::ToggleRecording => {
            if state.is_recording {
                state.is_recording = false;
                HubEffect::StopCapture
            } else {
                HubEffect::StartCapture(clone_opt(&state.selected_device))
            }
        },
        HubMessage::CaptureStarted(Ok(_)) => {
            state.is_recording = true;
            state.transcribe_status = Some(
                String::from_str("Recording... click Stop to transcribe"),
            );
            state.pipeline_state = PipelineState::Recording;
            HubEffect::Nothing
        },
        HubMessage::CaptureStarted(Err(e)) => {
            state.transcribe_status = Some(status("Could not start recording: ", e.as_str(), ""));
            state.pipeline_state = PipelineState::Idle;
            HubEffect::Nothing
        },
        HubMessage::CaptureStopped(Ok(_)) => {
            state.transcribe_status = Some(String::from_str("Transcribing recording..."));
            state.transcribed_text = None;
            state.pipeline_state = PipelineState::Transcribing;
            HubEffect::TranscribeRecording
        },
        HubMessage::CaptureStopped(Err(e)) => {
            state.transcribe_status = Some(status("Recording failed: ", e.as_str(), ""));
            state.pipeline_state = PipelineState::Idle;
            HubEffect::Nothing
        },
        _ => HubEffect::Nothing,
    }
}

/// What the Speakers section says when a recording is picked for
/// diarization but no speaker model is installed.
pub const DIARIZE_UNAVAILABLE: &'static str =
    "No speaker model is installed, so this recording cannot be diarized yet.";

fn on_recording_picked(
    state: &mut HubState,
    p: Option<String>,
    model_available: bool,
    db_path: Option<String>,
) -> (e: HubEffect)
    requires
        old(state).wf(),
    ensures
        final(state).wf(),
        final(state)@ == hub_next(
            old(state)@,
            HubMessage::RecordingPicked(p, model_available, db_path),
        ),
        e@ == hub_effect(old(state)@, HubMessage::RecordingPicked(p, model_available, db_path)),
{
    match p {
        None => HubEffect::Nothing,
        Some(path) => {
            if !model_available {
                state.needs_speaker_model = true;
                state.diarize_status = Some(String::from_str(DIARIZE_UNAVAILABLE));
                HubEffect::Nothing
            } else {
                match db_path {
                    Some(db) => {
                        state.diarize_status = Some(status("Diarizing ", path.as_str(), "..."));
                        HubEffect::Diarize(path, db)
                    },
                    None => {
                        state.diarize_status = Some(
                            String::from_str("Could not determine the app data directory"),
                        );
                        HubEffect::Nothing
                    },
                }
            }
        },
    }
}

fn on_diarized(state: &mut HubState, r: Result<u64, String>) -> (e: HubEffect)
    requires
        old(state).wf(),
    ensures
        final(state).wf(),
        final(state)@ == hub_next(old(state)@, HubMessage::DiarizeFinished(r)),
        e@ == hub_effect(old(state)@, HubMessage::DiarizeFinished(r)),
{
    proof {
        reveal_strlit("");
    }
    match r {
        Ok(count) => {
            let mut line = String::from_str("Diarization complete: ");
            push_decimal(&mut line, count);
            push_str(&mut line, " turn(s) found");
            state.diarize_status = Some(line);
        },
        Err(e) => {
            state.diarize_status = Some(status("Diarization failed: ", e.as_str(), ""));
        },
    }
    HubEffect::Nothing
}

fn on_rename_submitted(state: &mut HubState, id: String) -> (e: HubEffect)
    requires
        old(state).wf(),
    ensures
        final(state).wf(),
        final(state)@ == hub_next(old(state)@, HubMessage::SpeakerRenameSubmitted(id)),
        e@ == hub_effect(old(state)@, HubMessage::SpeakerRenameSubmitted(id)),
{
    let draft = match state.speaker_rename_drafts.get(id.as_str()) {
        Some(d) => Some(d.clone()),
        None => None,
    };
    state.speaker_rename_drafts.remove(id.as_str());
    match draft {
        Some(d) => if is_blank(d.as_str()) {
            HubEffect::Nothing
        } else {
            HubEffect::RenameSpeaker(id, d)
        },
        None => HubEffect::Nothing,
    }
}

fn on_number_field(state: &mut HubState, message: HubMessage) -> (e: HubEffect)
    requires
        old(state).wf(),
        message is RefineTimeoutMsChanged || message is PrePasteDelayMsChanged,
    ensures
        final(state).wf(),
        final(state)@ == hub_next(old(state)@, message),
        e@ == hub_effect(old(state)@, message),
{
    match message {
        HubMessage::RefineTimeoutMsChanged(text) => {
            let committed = commit_number(text.as_str(), MAX_REFINE_TIMEOUT_MS);
            state.refine_timeout_draft = text;
            match committed {
                Some(v) => {
                    state.config.refine_timeout_ms = v;
                    HubEffect::Persist
                },
                None => HubEffect::Nothing,
            }
        },
        HubMessage::PrePasteDelayMsChanged(text) => {
            let committed = commit_number(text.as_str(), MAX_PRE_PASTE_DELAY_MS);
            state.pre_paste_delay_draft = text;
            match committed {
                Some(v) => {
                    state.config.pre_paste_delay_ms = v;
                    HubEffect::Persist
                },
                None => HubEffect::Nothing,
            }
        },
        _ => HubEffect::Nothing,
    }
}

fn on_devices_changed(state: &mut HubState, change: DeviceChange) -> (e: HubEffect)
    requires
        old(state).wf(),
    ensures
        final(state).wf(),
        final(state)@ == hub_next(old(state)@, HubMessage::InputDevicesChanged(change)),
        e@ == hub_effect(old(state)@, HubMessage::InputDevicesChanged(change)),
{
    let devices = apply_device_change(&state.input_devices, &change);
    let configured: Option<&str> = match &state.config.input_device {
        Some(d) => Some(d.as_str()),
        None => None,
    };
    let current: Option<&str> = match &state.notice {
        Some(n) => Some(n.as_str()),
        None => None,
    };
    let update = hotplug_notice(configured, &change, current);
    state.input_devices = devices;
    match update {
        NoticeUpdate::Show(n) => state.notice = Some(n),
        NoticeUpdate::Clear => state.notice = None,
        NoticeUpdate::Keep => {},
    }
    HubEffect::Nothing
}

/// Applies `message` to the Hub and says what outside work follows.
pub fn update(state: &mut HubState, message: HubMessage) -> (e: HubEffect)
    requires
        old(state).wf(),
    ensures
        final(state).wf(),
        final(state)@ == hub_next(old(state)@, message),
        e@ == hub_effect(old(state)@, message),
{
    match message {
        HubMessage::LanguageChanged(_) | HubMessage::EmbeddingModelSelected(_)
        | HubMessage::NumberFormatSelected(_) | HubMessage::CookieBrowserChanged(_)
        | HubMessage::DeviceSelected(_) => on_config_label(state, message),
        HubMessage::Toggled(which, v) => on_toggle(state, which, v),
        HubMessage::HotkeyCaptured(o) => on_hotkey(state, o),
        HubMessage::StartHotkeyCapture | HubMessage::ThemeToggled | HubMessage::TabSelected(_)
        | HubMessage::SettingsSectionSelected(_) | HubMessage::HistorySearchChanged(_)
        | HubMessage::DismissNotice | HubMessage::TakeScreenshot(_) => on_view_message(
            state,
            message,
        ),
        HubMessage::CopyTranscript => on_copy(state),
        HubMessage::FileToTranscribePicked(_) | HubMessage::FileTranscribed(_) => on_transcription(
            state,
            message,
        ),
        HubMessage::ToggleRecording | HubMessage::CaptureStarted(_) | HubMessage::CaptureStopped(
            _,
        ) => on_capture(state, message),
        HubMessage::RecordingPicked(p, model_available, db_path) => on_recording_picked(
            state,
            p,
            model_available,
            db_path,
        ),
        HubMessage::DiarizeFinished(r) => on_diarized(state, r),
        HubMessage::SpeakerRenameInputChanged(id, draft) => {
            state.speaker_rename_drafts.insert(id.as_str(), draft);
            HubEffect::Nothing
        },
        HubMessage::SpeakerRenameSubmitted(id) => on_rename_submitted(state, id),
        HubMessage::RefineTimeoutMsChanged(_) | HubMessage::PrePasteDelayMsChanged(_) =>
            on_number_field(state, message),
        HubMessage::InputDevicesChanged(change) => on_devices_changed(state, change),
        HubMessage::ApiKeyDraftChanged(id, draft) => {
            state.api_key_drafts.insert(id.as_str(), draft);
            HubEffect::Nothing
        },
        HubMessage::ImportStarted => {
            state.transcribe_status = Some(String::from_str("Importing\u{2026}"));
            HubEffect::Nothing
        },
        HubMessage::ImportFinished => {
            state.transcribe_status = None;
            HubEffect::Nothing
        },
        HubMessage::HistoryEncryptionSwitched(switched) => if switched {
            HubEffect::Persist
        } else {
            HubEffect::Nothing
        },
        HubMessage::LinkTranscribeStarted(title) => {
            state.screen = Screen::Dictate;
            state.transcribed_text = None;
            state.transcribe_status = Some(status("Transcribing ", title.as_str(), "\u{2026}"));
            HubEffect::Nothing
        },
        HubMessage::ApiKeySubmitted(_) | HubMessage::ApiKeySaveFinished(_, _, _)
        | HubMessage::ApiKeyRemoveFinished(_) => on_api_key(state, message),
    }
}

fn on_api_key(state: &mut HubState, message: HubMessage) -> (e: HubEffect)
    requires
        old(state).wf(),
        message is ApiKeySubmitted || message is ApiKeySaveFinished
            || message is ApiKeyRemoveFinished,
    ensures
        final(state).wf(),
        final(state)@ == hub_next(old(state)@, message),
        e@ == hub_effect(old(state)@, message),
{
    match message {
        HubMessage::ApiKeySubmitted(id) => {
            let draft = match state.api_key_drafts.get(id.as_str()) {
                Some(d) => d.clone(),
                None => String::new(),
            };
            state.api_key_drafts.remove(id.as_str());
            let key = string_from_chars(&trimmed(&chars_of(draft.as_str())));
            if key.unicode_len() == 0 {
                HubEffect::Nothing
            } else {
                HubEffect::SaveApiKey(id, key, draft)
            }
        },
        HubMessage::ApiKeySaveFinished(id, draft, r) => match r {
            Ok(_) => HubEffect::Persist,
            Err(e) => {
                state.last_error = Some(status("API key not saved: ", e.as_str(), ""));
                state.api_key_drafts.insert(id.as_str(), draft);
                proof {
                    reveal_strlit("");
                }
                HubEffect::Nothing
            },
        },
        HubMessage::ApiKeyRemoveFinished(r) => {
            if let Err(e) = r {
                state.last_error = Some(status("API key not fully removed: ", e.as_str(), ""));
                proof {
                    reveal_strlit("");
                }
            }
            HubEffect::Persist
        },
        _ => HubEffect::Nothing,
    }
}

/// The effect saves the config (possibly after touching the OS first).
pub open spec fn saves_config(e: EffectView) -> bool {
    e is Persist || e is SetAutostart || e is RefreshTray
}

/// Flipping a switch sets that switch and leaves every other one as it
/// was.
pub proof fn a_toggle_changes_only_its_switch(t: Seq<bool>, s: Setting, v: bool, other: Setting)
    requires
        t.len() == SETTING_COUNT,
    ensures
        toggle_of(with_toggle(t, s, v), s) == v,
        other != s ==> toggle_of(with_toggle(t, s, v), other) == toggle_of(t, other),
        with_toggle(t, s, v).len() == SETTING_COUNT,
{
    assert(0 <= setting_index(s) < SETTING_COUNT);
    assert(0 <= setting_index(other) < SETTING_COUNT);
    assert(other != s ==> setting_index(other) != setting_index(s));
}

/// A picked recording is diarized only when a speaker model is available;
/// without one the Hub asks for a model instead and starts nothing.
pub proof fn diarize_only_with_a_speaker_model(
    s: HubView,
    path: Option<String>,
    model_available: bool,
    db_path: Option<String>,
)
    ensures
        hub_effect(s, HubMessage::RecordingPicked(path, model_available, db_path)) is Diarize
            ==> model_available && path is Some && db_path is Some,
        path is Some && !model_available ==> {
            &&& hub_effect(s, HubMessage::RecordingPicked(path, model_available, db_path))
                is Nothing
            &&& hub_next(
                s,
                HubMessage::RecordingPicked(path, model_available, db_path),
            ).needs_speaker_model
        },
{
}

/// What the user types or picks is what the Hub then holds, and nothing
/// else changes: the History search box holds the typed query (so the
/// History table shows exactly the entries matching it), a tab or a
/// settings section becomes the one shown, and a picked input device is
/// both used and saved. None of these but the device asks for outside
/// work.
pub proof fn a_pick_is_what_the_hub_holds(
    s: HubView,
    q: String,
    texts: Seq<Seq<char>>,
    screen: Screen,
    section: SettingsSection,
    device: String,
)
    ensures
        hub_next(s, HubMessage::HistorySearchChanged(q)).history_search == q@,
        hub_next(s, HubMessage::HistorySearchChanged(q)) == (HubView {
            history_search: q@,
            ..s
        }),
        matching_entries(
            hub_next(s, HubMessage::HistorySearchChanged(q)).history_search,
            texts,
            texts.len() as int,
        ) == matching_entries(q@, texts, texts.len() as int),
        hub_effect(s, HubMessage::HistorySearchChanged(q)) is Nothing,
        hub_next(s, HubMessage::TabSelected(screen)).screen == screen,
        hub_next(s, HubMessage::TabSelected(screen)) == (HubView { screen: screen, ..s }),
        hub_effect(s, HubMessage::TabSelected(screen)) is Nothing,
        hub_next(s, HubMessage::SettingsSectionSelected(section)).settings_section == section,
        hub_next(s, HubMessage::SettingsSectionSelected(section)) == (HubView {
            settings_section: section,
            ..s
        }),
        hub_effect(s, HubMessage::SettingsSectionSelected(section)) is Nothing,
        hub_next(s, HubMessage::DeviceSelected(device)).selected_device == Some(device@),
        hub_next(s, HubMessage::DeviceSelected(device)).config.input_device == Some(device@),
        hub_effect(s, HubMessage::DeviceSelected(device)) is Persist,
{
}

/// Every edit the Hub makes to the config is saved right away: whenever a
/// message changes the config, the effect it asks for saves it.
pub proof fn config_changes_are_saved(s: HubView, m: HubMessage)
    ensures
        hub_next(s, m).config != s.config ==> saves_config(hub_effect(s, m)),
{
}

/// A number field keeps the text as typed; a text that parses commits the
/// number, capped at the field's limit, and one that does not leaves the
/// config as it was.
pub proof fn number_fields_stay_in_range(s: HubView, text: String)
    ensures
        hub_next(s, HubMessage::RefineTimeoutMsChanged(text)).refine_timeout_draft == text@,
        hub_next(s, HubMessage::PrePasteDelayMsChanged(text)).pre_paste_delay_draft == text@,
        match committed_number(text@, MAX_REFINE_TIMEOUT_MS) {
            Some(v) => v <= MAX_REFINE_TIMEOUT_MS && hub_next(
                s,
                HubMessage::RefineTimeoutMsChanged(text),
            ).config.refine_timeout_ms == v,
            None => hub_next(s, HubMessage::RefineTimeoutMsChanged(text)).config == s.config,
        },
        match committed_number(text@, MAX_PRE_PASTE_DELAY_MS) {
            Some(v) => v <= MAX_PRE_PASTE_DELAY_MS && hub_next(
                s,
                HubMessage::PrePasteDelayMsChanged(text),
            ).config.pre_paste_delay_ms == v,
            None => hub_next(s, HubMessage::PrePasteDelayMsChanged(text)).config == s.config,
        },
{
}

/// Switching the theme twice gives the Hub back as it was, and dismissing
/// the notice clears it and changes nothing else.
pub proof fn theme_and_notice_round_trips(s: HubView)
    ensures
        hub_next(hub_next(s, HubMessage::ThemeToggled), HubMessage::ThemeToggled) == s,
        hub_next(s, HubMessage::DismissNotice) == (HubView { notice: None, ..s }),
{
    assert(toggled_theme(toggled_theme(s.theme)) == s.theme);
    assert(hub_next(hub_next(s, HubMessage::ThemeToggled), HubMessage::ThemeToggled) =~= s);
}

/// Binding a hotkey ends the capture and stores the same combo in the
/// config and on screen; cancelling ends it and keeps the configured
/// hotkey.
pub proof fn a_captured_hotkey_is_bound_and_shown(s: HubView, o: CaptureOutcome)
    ensures
        o is Bound ==> {
            let n = hub_next(s, HubMessage::HotkeyCaptured(o));
            &&& !n.hotkey_capturing
            &&& n.config.hotkey == n.captured_hotkey
            &&& n.config.hotkey == Some(o->Bound_0@)
        },
        o is Cancelled ==> {
            let n = hub_next(s, HubMessage::HotkeyCaptured(o));
            &&& !n.hotkey_capturing
            &&& n.config.hotkey == s.config.hotkey
        },
{
}

/// Copying does nothing unless there is a transcript with something other
/// than whitespace in it, and never changes the Hub.
pub proof fn copy_needs_a_transcript(s: HubView)
    ensures
        hub_next(s, HubMessage::CopyTranscript) == s,
        hub_effect(s, HubMessage::CopyTranscript) is CopyToClipboard <==> (
        s.transcribed_text is Some && !all_ws(s.transcribed_text->0)),
{
}

/// A status banner under the Hub's header.
#[derive(Debug, Clone, Copy, PartialEq, Eq, Structural)]
pub enum BannerKind {
    /// The last worker error.
    Error,
    /// A calm notice the user can dismiss.
    Notice,
    /// The first-run "pick a speech model" prompt.
    Onboarding,
}

/// The banners the Hub shows, top to bottom: an error first, a notice
/// beside anything, and the onboarding prompt only when there is no error.
pub open spec fn banners_of(s: HubView) -> Seq<BannerKind> {
    let e: Seq<BannerKind> = if s.last_error is Some {
        seq![BannerKind::Error]
    } else {
        seq![]
    };
    let n: Seq<BannerKind> = if s.notice is Some {
        seq![BannerKind::Notice]
    } else {
        seq![]
    };
    let o: Seq<BannerKind> = if s.last_error is None && s.needs_model {
        seq![BannerKind::Onboarding]
    } else {
        seq![]
    };
    e + n + o
}

/// The banners the Hub shows for `state`, top to bottom.
pub fn visible_banners(state: &HubState) -> (v: Vec<BannerKind>)
    ensures
        v@ == banners_of(state@),
{
    let mut kinds: Vec<BannerKind> = Vec::new();
    if state.last_error.is_some() {
        kinds.push(BannerKind::Error);
    }
    if state.notice.is_some() {
        kinds.push(BannerKind::Notice);
    }
    if state.last_error.is_none() && state.needs_model {
        kinds.push(BannerKind::Onboarding);
    }
    assert(kinds@ =~= banners_of(state@));
    kinds
}

/// An error never competes with the first-run prompt: the two never show
/// together, and an error always comes first.
pub proof fn an_error_hides_the_onboarding_prompt(s: HubView)
    ensures
        s.last_error is Some ==> !banners_of(s).contains(BannerKind::Onboarding),
        s.last_error is Some ==> banners_of(s)[0] == BannerKind::Error,
{
    if s.last_error is Some {
        assert(banners_of(s)[0] == BannerKind::Error);
        if banners_of(s).contains(BannerKind::Onboarding) {
            let i = choose|i: int| 0 <= i < banners_of(s).len() && banners_of(s)[i]
                == BannerKind::Onboarding;
        }
    }
}

/// The Copy action has something to copy: a transcript that is not blank.
pub fn copy_enabled(state: &HubState) -> (b: bool)
    ensures
        b == (state@.transcribed_text matches Some(t) && !all_ws(t)),
{
    match &state.transcribed_text {
        Some(t) => !is_blank(t.as_str()),
        None => false,
    }
}

/// Which event sources the Hub listens to at a given moment.
#[derive(Debug, Clone, Copy, PartialEq, Eq, Structural)]
pub struct Listeners {
    /// Key presses, for a hotkey capture.
    pub capture_keys: bool,
    /// Key presses, for Escape in the link dialog.
    pub dialog_keys: bool,
    /// The microphone level meter's clock.
    pub mic_meter: bool,
    /// The tray's menu-click poll.
    pub tray_poll: bool,
    /// The clock that ends the tray's lingering "Done".
    pub tray_done_tick: bool,
    /// The clock that takes the one-shot screenshot.
    pub screenshot_timer: bool,
}

/// The event sources the Hub needs: keys only while capturing a hotkey or
/// while the link dialog is open, the meter only while recording, the tray
/// clocks only with a tray (and a pending "Done"), and the screenshot clock
/// only until the requested shot is taken.
pub fn listeners(
    state: &HubState,
    dialog_open: bool,
    tray_present: bool,
    done_pending: bool,
    screenshot_requested: bool,
) -> (l: Listeners)
    ensures
        l.capture_keys == state.hotkey_capturing,
        l.dialog_keys == dialog_open,
        l.mic_meter == state.is_recording,
        l.tray_poll == tray_present,
        l.tray_done_tick == done_pending,
        l.screenshot_timer == (screenshot_requested && !state.screenshot_taken),
{
    Listeners {
        capture_keys: state.hotkey_capturing,
        dialog_keys: dialog_open,
        mic_meter: state.is_recording,
        tray_poll: tray_present,
        tray_done_tick: done_pending,
        screenshot_timer: screenshot_requested && !state.screenshot_taken,
    }
}

/// One row of the speaker roster.
#[derive(Debug)]
pub struct SpeakerRow {
    /// The speaker's name, or its id before it has one.
    pub display: String,
    /// The rename field: the draft being typed, else the current name.
    pub draft: String,
    /// Save is offered only for a draft that is not blank.
    pub can_save: bool,
    /// How many scans the speaker appeared in, as `N scan(s)`.
    pub scans_label: String,
}

/// What a speaker's name shows as: the name, or the id before it has one.
pub open spec fn speaker_display(id: Seq<char>, name: Option<Seq<char>>) -> Seq<char> {
    match name {
        Some(n) => n,
        None => id,
    }
}

/// The roster row for speaker `id`, named `name`, seen in `scans` scans.
pub fn speaker_row(state: &HubState, id: &str, name: &Option<String>, scans: u64) -> (r: SpeakerRow)
    requires
        state.wf(),
    ensures
        r.display@ == speaker_display(id@, opt_view(*name)),
        r.draft@ == (if state@.speaker_rename_drafts.contains_key(id@) {
            state@.speaker_rename_drafts[id@]
        } else {
            speaker_display(id@, opt_view(*name))
        }),
        r.can_save == !all_ws(r.draft@),
        r.scans_label@ == decimal(scans as nat) + " scan(s)"@,
{
    let display = match name {
        Some(n) => n.clone(),
        None => String::from_str(id),
    };
    let draft = match state.speaker_rename_drafts.get(id) {
        Some(d) => d.clone(),
        None => display.clone(),
    };
    let can_save = !is_blank(draft.as_str());
    let mut scans_label = String::new();
    push_decimal(&mut scans_label, scans);
    push_str(&mut scans_label, " scan(s)");
    SpeakerRow { display, draft, can_save, scans_label }
}

/// The Dictate screen's transcript words line: the transcript's word count,
/// 0 before there is one.
pub fn transcript_words(state: &HubState) -> (l: String)
    ensures
        l@ == words_label_of(
            match state@.transcribed_text {
                Some(t) => word_count_of(t),
                None => 0,
            },
        ),
{
    match &state.transcribed_text {
        Some(t) => words_label(word_count(t.as_str())),
        None => words_label(0),
    }
}

/// The hint the transcript area shows until there is something to read.
pub const TRANSCRIPT_HINT: &'static str =
    "Record from the mic or pick a .wav file to see the transcript here.";

/// The Dictate screen's transcript text: the transcript when it is not
/// blank, else the hint.
pub fn transcript_body(state: &HubState) -> (t: &str)
    ensures
        t@ == (match state@.transcribed_text {
            Some(x) => if all_ws(x) {
                TRANSCRIPT_HINT@
            } else {
                x
            },
            None => TRANSCRIPT_HINT@,
        }),
{
    match &state.transcribed_text {
        Some(t) => if is_blank(t.as_str()) {
            TRANSCRIPT_HINT
        } else {
            t.as_str()
        },
        None => TRANSCRIPT_HINT,
    }
}

/// The record button's label: Stop while recording, Record otherwise.
pub fn record_label(state: &HubState) -> (l: &'static str)
    ensures
        l@ == (if state.is_recording {
            "Stop"@
        } else {
            "Record"@
        }),
{
    if state.is_recording {
        "Stop"
    } else {
        "Record"
    }
}

/// One API-key row of the Accounts section.
#[derive(Debug)]
pub struct ApiKeyRow {
    /// The field's text: the draft being typed, else empty.
    pub draft: String,
    /// The field's placeholder: a key's shape when none is saved, else an
    /// invitation to replace it.
    pub placeholder: &'static str,
    /// Save is offered for a draft that is not blank.
    pub can_save: bool,
    /// Remove is offered when a key is saved somewhere.
    pub can_remove: bool,
    /// Where the saved key lives, never the key itself.
    pub caption: String,
}

/// The row for backend `id`, whose saved key is at `location`. The key
/// itself is never shown: only the draft being typed and where the saved
/// one lives.
pub fn api_key_row(state: &HubState, id: &str, location: SecretLocation, platform: Platform) -> (r:
    ApiKeyRow)
    requires
        state.wf(),
    ensures
        r.draft@ == (if state@.api_key_drafts.contains_key(id@) {
            state@.api_key_drafts[id@]
        } else {
            Seq::empty()
        }),
        r.placeholder@ == (if location is Missing {
            "sk-..."@
        } else {
            "Paste a new key to replace it"@
        }),
        r.can_save == !all_ws(r.draft@),
        r.can_remove == !(location is Missing),
        r.caption@ == location_caption_of(location, platform),
{
    let draft = match state.api_key_drafts.get(id) {
        Some(d) => d.clone(),
        None => String::new(),
    };
    let missing = match location {
        SecretLocation::Missing => true,
        _ => false,
    };
    let can_save = !is_blank(draft.as_str());
    ApiKeyRow {
        draft,
        placeholder: if missing {
            "sk-..."
        } else {
            "Paste a new key to replace it"
        },
        can_save,
        can_remove: !missing,
        caption: location_caption(location, platform),
    }
}

/// The text of an optional string, empty when there is none.
pub open spec fn or_empty(o: Option<Seq<char>>) -> Seq<char> {
    match o {
        Some(t) => t,
        None => Seq::empty(),
    }
}

/// What a banner says: the worker error, the notice, or the first-run
/// prompt.
pub open spec fn banner_text_of(s: HubView, kind: BannerKind) -> Seq<char> {
    match kind {
        BannerKind::Error => "Last worker error: "@ + or_empty(s.last_error),
        BannerKind::Notice => or_empty(s.notice),
        BannerKind::Onboarding => "Pick a speech model in Models to start dictating."@,
    }
}

/// The text of a banner of `kind`; only the notice banner can be
/// dismissed.
pub fn banner_text(state: &HubState, kind: BannerKind) -> (t: String)
    ensures
        t@ == banner_text_of(state@, kind),
{
    proof {
        reveal_strlit("");
    }
    match kind {
        BannerKind::Error => match &state.last_error {
            Some(e) => status("Last worker error: ", e.as_str(), ""),
            None => String::from_str("Last worker error: "),
        },
        BannerKind::Notice => match &state.notice {
            Some(n) => n.clone(),
            None => String::new(),
        },
        BannerKind::Onboarding => String::from_str(
            "Pick a speech model in Models to start dictating.",
        ),
    }
}

/// The rail's microphone line: the chosen input device, or a note that
/// there is none.
pub fn status_device(state: &HubState) -> (d: &str)
    ensures
        d@ == (match state@.selected_device {
            Some(n) => n,
            None => "No microphone"@,
        }),
{
    match &state.selected_device {
        Some(n) => n.as_str(),
        None => "No microphone",
    }
}

} // verus!
