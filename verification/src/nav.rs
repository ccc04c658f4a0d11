//! The Hub's navigation and chrome vocabulary: the nav-rail screens, the
//! Settings sub-nav sections, the light/dark theme, the glanceable words for
//! the dictation pipeline's state, the start/stop sound cues, and the
//! screen and theme a headless screenshot run asks for.

use vstd::prelude::*;

use crate::text::{chars_of, lowers_to, lowers_to_of, pad2, push_pad2, trim, trimmed};

verus! {

/// The Hub window's title.
pub const HUB_TITLE: &'static str = "whspr";

/// Which top-level screen the Hub's numbered nav rail shows. Declaration
/// order is the rail order.
#[derive(Debug, Clone, Copy, PartialEq, Eq, Structural)]
pub enum Screen {
    Dictate,
    History,
    Models,
    Speakers,
    Settings,
}

impl Default for Screen {
    /// Dictate is where a user lands.
    fn default() -> (s: Self)
        ensures
            s == Screen::Dictate,
    {
        Screen::Dictate
    }
}

/// Which section of the Settings screen's sub-nav is selected. Declaration
/// order is the sub-nav order.
#[derive(Debug, Clone, Copy, PartialEq, Eq, Structural)]
pub enum SettingsSection {
    General,
    Audio,
    Capture,
    Cleanup,
    Typing,
    Privacy,
    Accounts,
}

impl Default for SettingsSection {
    fn default() -> (s: Self)
        ensures
            s == SettingsSection::General,
    {
        SettingsSection::General
    }
}

/// Every screen, in nav-rail order.
pub const SCREENS: [Screen; 5] = [
    Screen::Dictate,
    Screen::History,
    Screen::Models,
    Screen::Speakers,
    Screen::Settings,
];

/// A screen's position in the rail, from 0.
pub open spec fn screen_index(s: Screen) -> int {
    match s {
        Screen::Dictate => 0,
        Screen::History => 1,
        Screen::Models => 2,
        Screen::Speakers => 3,
        Screen::Settings => 4,
    }
}

/// The rail's label for a screen.
pub open spec fn rail_label_of(s: Screen) -> Seq<char> {
    match s {
        Screen::Dictate => "Dictate"@,
        Screen::History => "History"@,
        Screen::Models => "Models"@,
        Screen::Speakers => "Speakers"@,
        Screen::Settings => "Settings"@,
    }
}

/// The rail's label for a screen.
pub fn rail_label(screen: Screen) -> (label: &'static str)
    ensures
        label@ == rail_label_of(screen),
{
    match screen {
        Screen::Dictate => "Dictate",
        Screen::History => "History",
        Screen::Models => "Models",
        Screen::Speakers => "Speakers",
        Screen::Settings => "Settings",
    }
}

/// A screen's header title: its rail label.
pub fn screen_title(screen: Screen) -> (title: &'static str)
    ensures
        title@ == rail_label_of(screen),
{
    rail_label(screen)
}

/// The two-digit number a rail item shows for a screen (`01` .. `05`).
pub fn rail_number(screen: Screen) -> (n: String)
    ensures
        n@ == pad2((screen_index(screen) + 1) as nat),
{
    let index: u64 = match screen {
        Screen::Dictate => 0,
        Screen::History => 1,
        Screen::Models => 2,
        Screen::Speakers => 3,
        Screen::Settings => 4,
    };
    let mut out = String::new();
    push_pad2(&mut out, index + 1);
    assert(out@ =~= pad2((screen_index(screen) + 1) as nat));
    out
}

/// The sub-nav entries, in order.
pub const SECTIONS: [(SettingsSection, &'static str); 7] = [
    (SettingsSection::General, "General"),
    (SettingsSection::Audio, "Audio & devices"),
    (SettingsSection::Capture, "Capture"),
    (SettingsSection::Cleanup, "Cleanup"),
    (SettingsSection::Typing, "Typing"),
    (SettingsSection::Privacy, "Privacy"),
    (SettingsSection::Accounts, "Accounts & keys"),
];

/// A section's position in the sub-nav, from 0.
pub open spec fn section_index(s: SettingsSection) -> int {
    match s {
        SettingsSection::General => 0,
        SettingsSection::Audio => 1,
        SettingsSection::Capture => 2,
        SettingsSection::Cleanup => 3,
        SettingsSection::Typing => 4,
        SettingsSection::Privacy => 5,
        SettingsSection::Accounts => 6,
    }
}

/// The light or dark theme.
#[derive(Debug, Clone, Copy, PartialEq, Eq, Structural)]
pub enum Theme {
    Light,
    Dark,
}

/// The theme the toggle switches to.
pub open spec fn toggled_theme(t: Theme) -> Theme {
    match t {
        Theme::Dark => Theme::Light,
        Theme::Light => Theme::Dark,
    }
}

/// The theme the Hub's theme toggle switches to.
pub fn toggle_theme(theme: Theme) -> (t: Theme)
    ensures
        t == toggled_theme(theme),
{
    match theme {
        Theme::Dark => Theme::Light,
        Theme::Light => Theme::Dark,
    }
}

/// The theme-toggle button's label names the theme you would switch to.
pub open spec fn theme_toggle_label_of(t: Theme) -> Seq<char> {
    match t {
        Theme::Dark => "Switch to light"@,
        Theme::Light => "Switch to dark"@,
    }
}

/// The theme-toggle button's label: it names the theme you would switch
/// to.
pub fn theme_toggle_label(theme: Theme) -> (label: &'static str)
    ensures
        label@ == theme_toggle_label_of(theme),
{
    match theme {
        Theme::Dark => "Switch to light",
        Theme::Light => "Switch to dark",
    }
}

/// The dictation pipeline's state.
#[derive(Debug, Clone, Copy, PartialEq, Eq, Structural)]
pub enum PipelineState {
    Idle,
    Recording,
    Transcribing,
    Refining,
    Injecting,
    Error,
}

/// The rail's glanceable word for a pipeline state.
pub open spec fn pipeline_word_of(s: PipelineState) -> Seq<char> {
    match s {
        PipelineState::Idle => "Ready"@,
        PipelineState::Recording => "Listening"@,
        PipelineState::Transcribing => "Transcribing"@,
        PipelineState::Refining => "Cleaning up"@,
        PipelineState::Injecting => "Typing"@,
        PipelineState::Error => "Error"@,
    }
}

/// A glanceable word for the pipeline's current state (shown on the rail).
pub fn pipeline_word(state: PipelineState) -> (w: &'static str)
    ensures
        w@ == pipeline_word_of(state),
{
    match state {
        PipelineState::Idle => "Ready",
        PipelineState::Recording => "Listening",
        PipelineState::Transcribing => "Transcribing",
        PipelineState::Refining => "Cleaning up",
        PipelineState::Injecting => "Typing",
        PipelineState::Error => "Error",
    }
}

/// The Flow Bar's label for a pipeline state, collapsing the pipeline to
/// Idle / Recording / Thinking / Done (+ Error).
pub open spec fn flow_label_of(s: PipelineState) -> Seq<char> {
    match s {
        PipelineState::Idle => "Idle"@,
        PipelineState::Recording => "Recording"@,
        PipelineState::Transcribing => "Thinking"@,
        PipelineState::Refining => "Thinking"@,
        PipelineState::Injecting => "Done"@,
        PipelineState::Error => "Error"@,
    }
}

/// The Flow Bar's label for a pipeline state.
pub fn flow_label(state: PipelineState) -> (l: &'static str)
    ensures
        l@ == flow_label_of(state),
{
    match state {
        PipelineState::Idle => "Idle",
        PipelineState::Recording => "Recording",
        PipelineState::Transcribing | PipelineState::Refining => "Thinking",
        PipelineState::Injecting => "Done",
        PipelineState::Error => "Error",
    }
}

/// The nav rail lists every screen exactly once, in declaration order.
pub proof fn rail_lists_every_screen_in_order(s: Screen)
    ensures
        SCREENS@[screen_index(s)] == s,
        forall|i: int| 0 <= i < 5 && SCREENS@[i] == s ==> i == screen_index(s),
{
}

/// Distinct screens have distinct rail labels.
pub proof fn rail_labels_are_distinct(a: Screen, b: Screen)
    ensures
        rail_label_of(a) == rail_label_of(b) ==> a == b,
{
    reveal_strlit("Dictate");
    reveal_strlit("History");
    reveal_strlit("Models");
    reveal_strlit("Speakers");
    reveal_strlit("Settings");
    if a != b {
        let la = rail_label_of(a);
        let lb = rail_label_of(b);
        if la.len() == lb.len() {
            assert(la[0] != lb[0] || la[1] != lb[1]);
        }
    }
}

/// The Settings sub-nav lists every section exactly once, in declaration
/// order.
pub proof fn subnav_lists_every_section_once(s: SettingsSection)
    ensures
        SECTIONS@[section_index(s)].0 == s,
        forall|i: int| 0 <= i < 7 && SECTIONS@[i].0 == s ==> i == section_index(s),
{
}

/// Toggling the theme twice gives back the theme you started with.
pub proof fn theme_toggle_is_an_involution(t: Theme)
    ensures
        toggled_theme(toggled_theme(t)) == t,
        toggled_theme(t) != t,
{
}

/// The toggle's label always names the theme the toggle switches to.
pub proof fn theme_toggle_label_names_the_target(t: Theme)
    ensures
        theme_toggle_label_of(t) == (if toggled_theme(t) == Theme::Light {
            "Switch to light"@
        } else {
            "Switch to dark"@
        }),
{
}

/// The screen a screenshot run asks for with `value` (the
/// `WHSPR_SCREENSHOT_SCREEN` setting, trimmed, any ASCII case): `history`,
/// `models`, `speakers` or `settings`, and Dictate for anything else.
pub open spec fn requested_screen_of(value: Seq<char>) -> Screen {
    let w = trim(value);
    if lowers_to_of(w, "history"@) {
        Screen::History
    } else if lowers_to_of(w, "models"@) {
        Screen::Models
    } else if lowers_to_of(w, "speakers"@) {
        Screen::Speakers
    } else if lowers_to_of(w, "settings"@) {
        Screen::Settings
    } else {
        Screen::Dictate
    }
}

/// The screen a screenshot run asks for (see [`requested_screen_of`]).
pub fn screen_from_env(value: &str) -> (s: Screen)
    ensures
        s == requested_screen_of(value@),
{
    let w = trimmed(&chars_of(value));
    if lowers_to(&w, "history") {
        Screen::History
    } else if lowers_to(&w, "models") {
        Screen::Models
    } else if lowers_to(&w, "speakers") {
        Screen::Speakers
    } else if lowers_to(&w, "settings") {
        Screen::Settings
    } else {
        Screen::Dictate
    }
}

/// A screenshot run asks for the note desk: `note-desk`, `notedesk` or
/// `note_desk`, trimmed, in any ASCII case.
pub open spec fn requests_note_desk_of(value: Seq<char>) -> bool {
    let w = trim(value);
    lowers_to_of(w, "note-desk"@) || lowers_to_of(w, "notedesk"@) || lowers_to_of(
        w,
        "note_desk"@,
    )
}

/// Whether a screenshot run asks for the note desk.
pub fn screen_is_note_desk(value: &str) -> (b: bool)
    ensures
        b == requests_note_desk_of(value@),
{
    let w = trimmed(&chars_of(value));
    lowers_to(&w, "note-desk") || lowers_to(&w, "notedesk") || lowers_to(&w, "note_desk")
}

/// The theme a screenshot run asks for with `value` (the
/// `WHSPR_SCREENSHOT_THEME` setting): dark for `dark` in any ASCII case,
/// light otherwise.
pub fn theme_from_env(value: &str) -> (t: Theme)
    ensures
        t == (if lowers_to_of(trim(value@), "dark"@) {
            Theme::Dark
        } else {
            Theme::Light
        }),
{
    let w = trimmed(&chars_of(value));
    if lowers_to(&w, "dark") {
        Theme::Dark
    } else {
        Theme::Light
    }
}

/// A start/stop sound cue.
#[derive(Debug, Clone, Copy, PartialEq, Eq, Structural)]
pub enum Cue {
    /// Recording started.
    Start,
    /// Recording stopped.
    Stop,
}

impl Cue {
    /// The cue's pitch in whole hertz: A5 rising for Start, A4 for Stop.
    pub fn frequency_hz(self) -> (hz: u32)
        ensures
            hz == (match self {
                Cue::Start => 880u32,
                Cue::Stop => 440u32,
            }),
    {
        match self {
            Cue::Start => 880,
            Cue::Stop => 440,
        }
    }
}

} // verus!
