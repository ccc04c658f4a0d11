use whspr_app::progress::download_status_line;

/// The whole percentage the app shows for `downloaded` of `total` bytes.
fn percent(downloaded: u64, total: u64) -> Option<u32> {
    if total == 0 {
        return None;
    }
    let fraction = (downloaded as f64 / total as f64).min(1.0) as f32;
    Some((fraction * 100.0).round() as u32)
}

#[test]
fn status_line_shows_id_and_percent_when_total_known() {
    let line = download_status_line("large-v3", percent(500, 1000), "500 B", "1000 B", None);
    assert!(line.contains("large-v3"), "got: {line}");
    assert!(line.contains("50%"), "got: {line}");
}

#[test]
fn status_line_is_percent_less_when_total_unknown() {
    let line = download_status_line("mystery", percent(1024 * 1024, 0), "1.0 MB", "0 B", None);
    assert!(!line.contains('%'), "got: {line}");
    assert!(line.contains("so far"), "got: {line}");
}

#[test]
fn the_full_status_line_reads_left_to_right() {
    let line = download_status_line("large-v3", Some(42), "1.3 GB", "3.1 GB", Some("3.1 MB"));
    assert_eq!(line, "Downloading large-v3 \u{b7} 42% \u{b7} 1.3 GB / 3.1 GB \u{b7} 3.1 MB/s");
}

#[test]
fn an_unknown_total_shows_what_arrived_so_far() {
    let line = download_status_line("mystery", None, "1.0 MB", "ignored", Some("512 KB"));
    assert_eq!(line, "Downloading mystery \u{b7} 1.0 MB so far \u{b7} 512 KB/s");
}

#[test]
fn a_finished_download_shows_one_hundred_percent() {
    let line = download_status_line("x", percent(1200, 1000), "1.2 KB", "1.0 KB", None);
    assert_eq!(line, "Downloading x \u{b7} 100% \u{b7} 1.2 KB / 1.0 KB");
}
