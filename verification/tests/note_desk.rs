use whspr_app::note_desk::{
    rank_line, secs_to_mmss, suggested_file_name, update, DeskMessage, ExportKind, Gutter,
    NoteDeskState, NoteHeading, Transcript, TranscriptFilter, TranscriptRow, TranscriptSegment,
};
use whspr_app::note_export::{document_typ, escape_markup, typst_string};


/// A `TranscriptRow` with just the fields the filter reads set.
fn row_with(gutter: Gutter, keep_score: u8) -> TranscriptRow {
    TranscriptRow {
        time_label: "00:00".to_string(),
        text: String::new(),
        speaker_id: None,
        gutter,
        keep_score,
    }
}

fn empty_desk() -> NoteDeskState {
    NoteDeskState {
        title: String::new(),
        rows: Vec::new(),
        headings: Vec::new(),
        filter: TranscriptFilter::default(),
        view_code: false,
        export_status: None,
    }
}

#[test]
fn enter_note_desk_seeds_the_mode() {
    let mut desk: Option<NoteDeskState> = None;
    assert!(update(&mut desk, &DeskMessage::EnterNoteDesk).is_none());
    let nd = desk.as_ref().expect("note desk seeded");
    assert!(!nd.rows.is_empty());
}

#[test]
fn back_to_dictate_clears_the_mode() {
    let mut desk = Some(NoteDeskState::sample());
    assert!(update(&mut desk, &DeskMessage::BackToDictate).is_none());
    assert!(desk.is_none());
}

#[test]
fn set_transcript_filter_updates_the_active_desk() {
    let mut desk = Some(NoteDeskState::sample());
    update(&mut desk, &DeskMessage::SetTranscriptFilter(TranscriptFilter::Kept));
    assert_eq!(desk.as_ref().expect("desk").filter, TranscriptFilter::Kept);
}

#[test]
fn note_desk_tests_update_ignores_unrelated_messages() {
    let mut desk: Option<NoteDeskState> = None;
    assert!(update(&mut desk, &DeskMessage::ToggleViewCode).is_none());
    assert!(update(&mut desk, &DeskMessage::ExportPdf).is_none());
    assert!(desk.is_none());
}

#[test]
fn toggle_view_code_flips_the_flag() {
    let mut desk = Some(NoteDeskState::sample());
    assert!(!desk.as_ref().unwrap().view_code);
    update(&mut desk, &DeskMessage::ToggleViewCode);
    assert!(desk.as_ref().unwrap().view_code);
    update(&mut desk, &DeskMessage::ToggleViewCode);
    assert!(!desk.as_ref().unwrap().view_code);
}

#[test]
fn export_done_ok_records_the_saved_path() {
    let mut desk = Some(NoteDeskState::sample());
    update(&mut desk, &DeskMessage::ExportTypDone(Ok(Some("/tmp/note.typ".to_string()))));
    assert_eq!(
        desk.as_ref().unwrap().export_status.as_deref(),
        Some("Saved Typst to /tmp/note.typ")
    );
}

#[test]
fn export_done_cancel_clears_status() {
    let mut nd = NoteDeskState::sample();
    nd.export_status = Some("Exporting PDF\u{2026}".to_string());
    let mut desk = Some(nd);
    update(&mut desk, &DeskMessage::ExportPdfDone(Ok(None)));
    assert!(desk.as_ref().unwrap().export_status.is_none());
}

#[test]
fn export_done_err_records_the_failure() {
    let mut desk = Some(NoteDeskState::sample());
    update(&mut desk, &DeskMessage::ExportPdfDone(Err("boom".to_string())));
    assert_eq!(desk.as_ref().unwrap().export_status.as_deref(), Some("PDF export failed: boom"));
}

#[test]
fn an_export_request_hands_back_the_document_and_file_name() {
    let mut desk = Some(NoteDeskState::sample());
    let expected = document_typ(desk.as_ref().unwrap());
    let job = update(&mut desk, &DeskMessage::ExportTyp).expect("export starts");
    assert_eq!(job.kind, ExportKind::Typst);
    assert_eq!(job.source, expected);
    assert!(job.file_name.ends_with(".typ"));
    assert_eq!(desk.as_ref().unwrap().export_status.as_deref(), Some("Exporting .typ\u{2026}"));
}

#[test]
fn suggested_file_name_sanitizes_and_falls_back() {
    assert_eq!(suggested_file_name("Lecture 7", "typ"), "Lecture 7.typ");
    assert_eq!(suggested_file_name("a/b\\c", "pdf"), "a-b-c.pdf");
    assert_eq!(suggested_file_name("   ", "typ"), "note.typ");
}

#[test]
fn sample_keep_scores_are_in_range() {
    for row in NoteDeskState::sample().rows {
        assert!(row.keep_score <= 3);
    }
}

#[test]
fn sample_has_a_title_and_rows() {
    let nd = NoteDeskState::sample();
    assert!(!nd.title.is_empty());
    assert!(!nd.rows.is_empty());
}

#[test]
fn rank_line_scores_by_length_and_figures() {
    assert_eq!(rank_line("Right, yeah."), (Gutter::Chatter, 0));
    assert_eq!(rank_line("we then cooled the sample"), (Gutter::Candidate, 1));
    assert_eq!(
        rank_line("we then cooled the sample down and measured it"),
        (Gutter::Candidate, 2)
    );
    assert_eq!(
        rank_line("we cooled the sample to 4 kelvin over ten minutes"),
        (Gutter::Kept, 3)
    );
    let long = "a b c d e f g h i j k l m n o";
    assert_eq!(rank_line(long), (Gutter::Kept, 3));
}

#[test]
fn from_import_maps_segments_to_candidate_rows() {
    let transcript = Transcript {
        text: "one two".to_string(),
        segments: vec![
            TranscriptSegment {
                text: "one two three four five".to_string(),
                start_secs: 5,
                end_ms: 8000,
                speaker: Some("Speaker A".to_string()),
            },
            TranscriptSegment {
                text: "two".to_string(),
                start_secs: 65,
                end_ms: 70_000,
                speaker: None,
            },
        ],
    };
    let headings = vec![NoteHeading { time_label: "00:00".to_string(), title: "Intro".to_string() }];
    let nd = NoteDeskState::from_import("Lecture", headings, &transcript);
    assert_eq!(nd.title, "Lecture");
    assert_eq!(nd.headings.len(), 1);
    assert_eq!(nd.rows.len(), 2);
    assert_eq!(nd.rows[0].time_label, "00:05");
    assert_eq!(nd.rows[0].text, "one two three four five");
    assert_eq!(nd.rows[0].speaker_id.as_deref(), Some("Speaker A"));
    assert_eq!(nd.rows[0].gutter, Gutter::Candidate);
    assert_eq!(nd.rows[1].time_label, "01:05");
    assert_eq!(nd.rows[1].gutter, Gutter::Chatter);
    assert!(nd.rows[1].speaker_id.is_none());
}

#[test]
fn from_import_without_segments_uses_a_single_text_row() {
    let transcript = Transcript { text: "just text".to_string(), segments: Vec::new() };
    let nd = NoteDeskState::from_import("Talk", Vec::new(), &transcript);
    assert_eq!(nd.rows.len(), 1);
    assert_eq!(nd.rows[0].time_label, "00:00");
    assert_eq!(nd.rows[0].text, "just text");
    assert!(nd.headings.is_empty());
}

#[test]
fn from_import_of_blank_text_still_has_the_single_row() {
    let transcript = Transcript { text: "   ".to_string(), segments: Vec::new() };
    let nd = NoteDeskState::from_import("Talk", Vec::new(), &transcript);
    assert_eq!(nd.rows.len(), 1);
    assert_eq!(nd.rows[0].time_label, "00:00");
    assert_eq!(nd.rows[0].text, "   ");
    assert!(nd.rows[0].speaker_id.is_none());
    assert_eq!(nd.rows[0].gutter, Gutter::Chatter);
    assert_eq!(nd.rows[0].keep_score, 0);
}

#[test]
fn filter_all_keeps_every_row() {
    for gutter in [Gutter::Kept, Gutter::Candidate, Gutter::Chatter] {
        for score in 0..=3 {
            assert!(TranscriptFilter::All.keeps(&row_with(gutter, score)));
        }
    }
}

#[test]
fn filter_kept_keeps_only_kept_rows() {
    assert!(TranscriptFilter::Kept.keeps(&row_with(Gutter::Kept, 0)));
    assert!(!TranscriptFilter::Kept.keeps(&row_with(Gutter::Candidate, 3)));
    assert!(!TranscriptFilter::Kept.keeps(&row_with(Gutter::Chatter, 3)));
}

#[test]
fn filter_key_includes_high_score_candidates() {
    assert!(TranscriptFilter::Key.keeps(&row_with(Gutter::Kept, 0)));
    assert!(TranscriptFilter::Key.keeps(&row_with(Gutter::Candidate, 2)));
    assert!(!TranscriptFilter::Key.keeps(&row_with(Gutter::Candidate, 1)));
}

#[test]
fn filter_default_is_key() {
    assert_eq!(TranscriptFilter::default(), TranscriptFilter::Key);
}

#[test]
fn filters_nest_on_concrete_rows() {
    for gutter in [Gutter::Kept, Gutter::Candidate, Gutter::Chatter] {
        for score in 0..=3 {
            let row = row_with(gutter, score);
            if TranscriptFilter::Kept.keeps(&row) {
                assert!(TranscriptFilter::Key.keeps(&row));
            }
            if TranscriptFilter::Key.keeps(&row) {
                assert!(TranscriptFilter::All.keeps(&row));
            }
        }
    }
}

#[test]
fn word_count_sums_row_words() {
    let mut nd = empty_desk();
    nd.rows = vec![
        TranscriptRow { text: "one two".to_string(), ..row_with(Gutter::Kept, 3) },
        TranscriptRow { text: " three ".to_string(), ..row_with(Gutter::Chatter, 0) },
    ];
    assert_eq!(nd.word_count(), 3);
}

#[test]
fn visible_rows_follow_the_filter_and_speakers_head_their_runs() {
    let mut nd = empty_desk();
    nd.rows = vec![
        TranscriptRow { speaker_id: Some("A".to_string()), ..row_with(Gutter::Kept, 3) },
        TranscriptRow { speaker_id: Some("A".to_string()), ..row_with(Gutter::Chatter, 0) },
        TranscriptRow { speaker_id: Some("A".to_string()), ..row_with(Gutter::Candidate, 2) },
        TranscriptRow { speaker_id: Some("B".to_string()), ..row_with(Gutter::Kept, 3) },
    ];
    let shown = nd.visible_rows();
    assert_eq!(shown, vec![0, 2, 3]);
    assert_eq!(nd.speaker_heads(&shown), vec![true, false, true]);
}

#[test]
fn secs_to_mmss_keeps_minutes_uncapped() {
    assert_eq!(secs_to_mmss(0), "00:00");
    assert_eq!(secs_to_mmss(4384), "73:04");
}

#[test]
fn document_carries_the_title() {
    let nd = NoteDeskState::sample();
    let doc = document_typ(&nd);
    assert!(doc.contains(&format!("= {}", nd.title)));
    assert!(doc.contains(&format!("#set document(title: \"{}\"", nd.title)));
}

#[test]
fn document_lists_kept_chapters() {
    let mut nd = NoteDeskState::sample();
    nd.headings = vec![NoteHeading { time_label: "00:00".to_string(), title: "Intro".to_string() }];
    let doc = document_typ(&nd);
    assert!(doc.contains("== Chapters"));
    assert!(doc.contains("- *00:00* Intro"));
}

#[test]
fn document_has_a_transcript_paragraph_per_row() {
    let nd = NoteDeskState::sample();
    let doc = document_typ(&nd);
    assert!(doc.contains("== Transcript"));
    for row in &nd.rows {
        assert!(doc.contains(&row.text), "missing transcript line: {}", row.text);
    }
}

#[test]
fn kept_rows_get_an_accent_timestamp() {
    let nd = NoteDeskState::sample();
    let doc = document_typ(&nd);
    assert!(doc.contains("#text(fill: rgb(\"#ec3013\"))[*11:52*]"));
}

#[test]
fn markup_metacharacters_in_text_are_escaped() {
    let mut nd = NoteDeskState::sample();
    nd.title = "Budget #1 [draft]".to_string();
    let doc = document_typ(&nd);
    assert!(doc.contains("= Budget \\#1 \\[draft\\]"));
}

#[test]
fn typst_string_escapes_quotes_and_backslashes() {
    assert_eq!(typst_string("a\"b\\c"), "\"a\\\"b\\\\c\"");
}

#[test]
fn empty_headings_omit_the_chapters_section() {
    let mut nd = NoteDeskState::sample();
    nd.headings.clear();
    assert!(!document_typ(&nd).contains("== Chapters"));
}

#[test]
fn an_empty_desk_still_gets_the_document_scaffolding() {
    let doc = document_typ(&empty_desk());
    assert!(doc.contains("#set document(title: \"\""));
    assert!(doc.contains("== Transcript"));
}

#[test]
fn escape_markup_backslashes_every_metacharacter() {
    assert_eq!(escape_markup("a_b*c"), "a\\_b\\*c");
    assert_eq!(escape_markup("plain text."), "plain text.");
}

/// Reads escaped text back: a backslash makes the next character literal.
fn unescape(t: &str) -> String {
    let mut out = String::new();
    let mut chars = t.chars();
    while let Some(c) = chars.next() {
        match (c, chars.clone().next()) {
            ('\\', Some(next)) => {
                out.push(next);
                chars.next();
            }
            _ => out.push(c),
        }
    }
    out
}

#[test]
fn escaped_text_reads_back_unchanged() {
    for s in ["", "plain", "a\\b", "#1 [draft] *bold* _x_ `c` $m$ <l> @r ~t /p", "\\\\#"] {
        assert_eq!(unescape(&escape_markup(s)), s);
        let quoted = typst_string(s);
        assert!(quoted.starts_with('"') && quoted.ends_with('"'));
        assert_eq!(unescape(&quoted[1..quoted.len() - 1]), s);
    }
}
