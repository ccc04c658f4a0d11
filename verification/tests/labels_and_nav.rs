use whspr_app::labels::{
    embedding_from_label, embedding_label, language_from_label, language_label,
    number_format_from_label, number_format_label, NumberFormat, SpeakerEmbeddingChoice,
    LANGUAGE_LABELS,
};
use whspr_app::nav::{
    flow_label, pipeline_word, rail_label, rail_number, screen_from_env, screen_is_note_desk,
    screen_title, theme_from_env, theme_toggle_label, toggle_theme, Cue, PipelineState, Screen,
    SettingsSection, Theme, HUB_TITLE, SCREENS, SECTIONS,
};

#[test]
fn hub_title_is_correct() {
    assert_eq!(HUB_TITLE, "whspr");
}

#[test]
fn embedding_label_roundtrips_through_from_label() {
    for choice in [SpeakerEmbeddingChoice::CamPlusPlus, SpeakerEmbeddingChoice::Eres2Net] {
        assert_eq!(embedding_from_label(embedding_label(choice)), choice);
    }
}

#[test]
fn embedding_from_label_falls_back_to_default_for_unknown_label() {
    assert_eq!(
        embedding_from_label("not-a-real-embedding-model"),
        SpeakerEmbeddingChoice::CamPlusPlus
    );
}

#[test]
fn language_label_roundtrips_through_from_label() {
    for &label in LANGUAGE_LABELS.iter() {
        let language = language_from_label(label);
        assert_eq!(language_label(&language), label);
    }
}

#[test]
fn language_label_none_is_auto() {
    assert_eq!(language_label(&None), "auto");
}

#[test]
fn language_label_unknown_code_falls_back_to_auto() {
    assert_eq!(language_label(&Some("xx-not-a-real-code".to_string())), "auto");
}

#[test]
fn language_from_label_auto_is_none() {
    assert_eq!(language_from_label("auto"), None);
}

#[test]
fn language_from_label_keeps_a_code() {
    assert_eq!(language_from_label("de"), Some("de".to_string()));
    assert_eq!(language_label(&Some("de".to_string())), "de");
}

#[test]
fn number_format_label_roundtrips_through_from_label() {
    for choice in [NumberFormat::Digits, NumberFormat::Words] {
        assert_eq!(number_format_from_label(number_format_label(choice)), choice);
    }
}

#[test]
fn number_format_from_label_falls_back_to_digits_for_unknown_label() {
    assert_eq!(number_format_from_label("not-a-real-format"), NumberFormat::Digits);
}

#[test]
fn transcribing_and_refining_both_show_as_thinking() {
    assert_eq!(flow_label(PipelineState::Transcribing), "Thinking");
    assert_eq!(flow_label(PipelineState::Refining), "Thinking");
}

#[test]
fn every_state_has_a_distinct_label_from_idle() {
    let idle = flow_label(PipelineState::Idle);
    for state in [
        PipelineState::Recording,
        PipelineState::Transcribing,
        PipelineState::Injecting,
        PipelineState::Error,
    ] {
        assert_ne!(flow_label(state), idle);
    }
}

#[test]
fn theme_toggle_label_names_the_target_theme() {
    assert_eq!(theme_toggle_label(Theme::Dark), "Switch to light");
    assert_eq!(theme_toggle_label(Theme::Light), "Switch to dark");
}

#[test]
fn theme_toggle_switches_and_switches_back() {
    assert_eq!(toggle_theme(Theme::Light), Theme::Dark);
    assert_eq!(toggle_theme(toggle_theme(Theme::Dark)), Theme::Dark);
}

#[test]
fn every_rail_item_has_a_distinct_label() {
    let labels: Vec<&str> = SCREENS.iter().map(|&s| rail_label(s)).collect();
    for (i, a) in labels.iter().enumerate() {
        for b in &labels[i + 1..] {
            assert_ne!(a, b);
        }
    }
    assert_eq!(rail_label(Screen::Dictate), "Dictate");
}

#[test]
fn rail_is_numbered_in_screen_order() {
    assert_eq!(SCREENS[0], Screen::Dictate);
    assert_eq!(SCREENS[4], Screen::Settings);
}

#[test]
fn rail_numbers_are_two_digit_positions() {
    assert_eq!(rail_number(Screen::Dictate), "01");
    assert_eq!(rail_number(Screen::Settings), "05");
    assert_eq!(screen_title(Screen::Models), rail_label(Screen::Models));
}

#[test]
fn pipeline_word_covers_every_state() {
    for s in [
        PipelineState::Idle,
        PipelineState::Recording,
        PipelineState::Transcribing,
        PipelineState::Refining,
        PipelineState::Injecting,
        PipelineState::Error,
    ] {
        assert!(!pipeline_word(s).is_empty());
    }
    assert_eq!(pipeline_word(PipelineState::Idle), "Ready");
}

#[test]
fn subnav_lists_every_section_once() {
    let sections: Vec<SettingsSection> = SECTIONS.iter().map(|(s, _)| *s).collect();
    for (i, a) in sections.iter().enumerate() {
        for b in &sections[i + 1..] {
            assert_ne!(a, b);
        }
    }
    assert_eq!(sections.len(), 7);
}

#[test]
fn general_is_the_default_section() {
    assert_eq!(SettingsSection::default(), SettingsSection::General);
}

#[test]
fn screen_default_is_dictate() {
    assert_eq!(Screen::default(), Screen::Dictate);
}

#[test]
fn screenshot_requests_are_trimmed_and_case_blind() {
    assert_eq!(screen_from_env("  Models "), Screen::Models);
    assert_eq!(screen_from_env("SETTINGS"), Screen::Settings);
    assert_eq!(screen_from_env("nonsense"), Screen::Dictate);
    assert_eq!(screen_from_env(""), Screen::Dictate);
    assert!(screen_is_note_desk(" Note-Desk"));
    assert!(screen_is_note_desk("note_desk"));
    assert!(!screen_is_note_desk("note desk"));
    assert_eq!(theme_from_env("DARK"), Theme::Dark);
    assert_eq!(theme_from_env("dim"), Theme::Light);
}

#[test]
fn start_is_higher_pitched_than_stop() {
    assert!(Cue::Start.frequency_hz() > Cue::Stop.frequency_hz());
    assert_eq!(Cue::Start.frequency_hz(), 880);
    assert_eq!(Cue::Stop.frequency_hz(), 440);
}
