use whspr_app::format::{clock_label, human_date, long_duration_label, minutes_label};
use whspr_app::history::{
    empty_history_message, history_lines, history_write, keeps_transcript, recent_rows,
    search_history, HistoryKey, HistoryWrite,
};
use whspr_app::text::{is_blank, parse_u64, truncate, word_count};

#[test]
fn word_count_counts_whitespace_separated_tokens() {
    assert_eq!(word_count("hello there world"), 3);
    assert_eq!(word_count("   "), 0);
}

#[test]
fn word_count_splits_on_whitespace() {
    assert_eq!(word_count("one  two\tthree\nfour"), 4);
    assert_eq!(word_count(""), 0);
    assert_eq!(word_count("\u{3000}a\u{a0}b "), 2);
}

#[test]
fn truncate_adds_ellipsis_past_the_limit() {
    assert_eq!(truncate("abcdef", 3), "abc\u{2026}");
    assert_eq!(truncate("ab", 3), "ab");
}

#[test]
fn truncate_trims_before_measuring() {
    assert_eq!(truncate("  abc  ", 3), "abc");
    assert_eq!(truncate("  ", 0), "");
    assert_eq!(truncate("\u{e9}t\u{e9} long", 3), "\u{e9}t\u{e9}\u{2026}");
}

#[test]
fn blank_means_only_whitespace() {
    assert!(is_blank(""));
    assert!(is_blank(" \t\n"));
    assert!(!is_blank(" x "));
}

#[test]
fn mmss_switches_to_hours_past_an_hour() {
    assert_eq!(clock_label(0), "00:00");
    assert_eq!(clock_label(700), "11:40");
    assert_eq!(clock_label(4462), "1:14:22");
}

#[test]
fn total_minutes_rounds_to_whole_minutes() {
    assert_eq!(minutes_label(58), "58 min");
}

#[test]
fn long_duration_reads_hours_and_minutes() {
    assert_eq!(long_duration_label(48000), "13 h 20 m");
    assert_eq!(long_duration_label(2700), "45 m");
}

#[test]
fn human_date_formats_yyyymmdd() {
    assert_eq!(human_date("20240312"), "12 Mar 2024");
}

#[test]
fn human_date_passes_through_unparseable_input() {
    assert_eq!(human_date("nope"), "nope");
    assert_eq!(human_date("20241399"), "20241399");
}

#[test]
fn human_date_drops_a_leading_zero_from_the_day() {
    assert_eq!(human_date("19991205"), "5 Dec 1999");
    assert_eq!(human_date("20240100"), "20240100");
    assert_eq!(human_date("2024-3-1"), "2024-3-1");
}

#[test]
fn parse_u64_follows_str_parse() {
    let chars = |s: &str| s.chars().collect::<Vec<char>>();
    for s in ["0", "42", "+7", "18446744073709551615", "", "+", "-1", "4 2", "18446744073709551616"] {
        assert_eq!(parse_u64(&chars(s)), s.parse::<u64>().ok(), "input {s:?}");
    }
}

#[test]
fn history_lines_skip_blank_lines_and_strip_crlf() {
    let lines = history_lines("{\"text\": \"a\"}\r\n\n   \n{\"text\": \"b\"}");
    assert_eq!(lines, vec!["{\"text\": \"a\"}".to_string(), "{\"text\": \"b\"}".to_string()]);
    assert!(history_lines("").is_empty());
    assert_eq!(history_lines("x\n"), vec!["x".to_string()]);
    assert_eq!(history_lines("x\r"), vec!["x\r".to_string()]);
}

#[test]
fn history_lines_match_str_lines() {
    let contents = "one\r\ntwo\n\n\tthree\nfour\r";
    let expected: Vec<String> = contents
        .lines()
        .filter(|l| !l.trim().is_empty())
        .map(str::to_string)
        .collect();
    assert_eq!(history_lines(contents), expected);
}

#[test]
fn record_completed_at_skips_blank_transcripts() {
    assert!(!keeps_transcript("   \n"));
    assert!(keeps_transcript("hello"));
}

#[test]
fn history_write_follows_the_setting_and_the_key() {
    let key = HistoryKey([7u8; 32]);
    assert_eq!(history_write(false, Some(&key)), HistoryWrite::Plain);
    assert_eq!(history_write(false, None), HistoryWrite::Plain);
    assert_eq!(history_write(true, None), HistoryWrite::MemoryOnly);
    assert_eq!(history_write(true, Some(&key)), HistoryWrite::Encrypted(&[7u8; 32]));
    assert_eq!(key.bytes(), &[7u8; 32]);
}

#[test]
fn word_count_counts_tokens() {
    assert_eq!(word_count("a b c"), 3);
    assert_eq!(word_count(""), 0);
}

#[test]
fn history_search_is_case_blind_and_newest_first() {
    let texts: Vec<String> =
        ["Hello World", "nothing here", "hello again"].iter().map(|s| s.to_string()).collect();
    assert_eq!(search_history("", &texts), vec![2, 1, 0]);
    assert_eq!(search_history("HELLO", &texts), vec![2, 0]);
    assert_eq!(search_history("xyz", &texts), Vec::<usize>::new());
    assert_eq!(search_history("o w", &texts), vec![0]);
    assert_eq!(empty_history_message(true), "Nothing matches your search.");
    assert_eq!(
        empty_history_message(false),
        "No transcriptions yet -- dictate something to see it here."
    );
}

#[test]
fn a_preview_never_exceeds_its_limit_plus_the_ellipsis() {
    for max in 0..6 {
        let p = truncate("  a longer transcript line  ", max);
        assert!(p.chars().count() <= max + 1);
    }
}

#[test]
fn recent_rows_list_the_last_three_newest_first() {
    let texts: Vec<String> = ["one", "two words", "three more words", &"x ".repeat(50)]
        .iter()
        .map(|s| s.to_string())
        .collect();
    let rows = recent_rows(&texts);
    assert_eq!(rows.len(), 3);
    assert_eq!(rows[0].words, "50 words");
    assert_eq!(rows[0].preview.chars().count(), 73);
    assert!(rows[0].preview.ends_with('\u{2026}'));
    assert_eq!(rows[1].preview, "three more words");
    assert_eq!(rows[2].words, "2 words");
    assert!(recent_rows(&Vec::new()).is_empty());
}

#[test]
fn empty_contents_yields_empty_history() {
    assert!(history_lines("").is_empty());
    assert!(history_lines("\n \n\t\n").is_empty());
}
