use ytgrab::progress::parse_progress_line;

#[test]
fn percent_is_exact_fraction() {
    let e = parse_progress_line("[download]  45.0% of 10.00MiB at 1.00MiB/s ETA 00:05").unwrap();
    assert_eq!(e.fraction_ppm, 450_000);
}

#[test]
fn percent_without_decimals() {
    let e = parse_progress_line("[download]  7% of 1.00MiB").unwrap();
    assert_eq!(e.fraction_ppm, 70_000);
    assert_eq!(e.status, "Downloading... 7.0%");
}

#[test]
fn percent_zero() {
    let e = parse_progress_line("[download]   0.0% of 10.00MiB at 512.00KiB/s ETA 00:40").unwrap();
    assert_eq!(e.fraction_ppm, 0);
}

#[test]
fn percent_with_many_fraction_digits() {
    let e = parse_progress_line("[download] 12.3456789% of big").unwrap();
    assert_eq!(e.fraction_ppm, 123_456);
}

#[test]
fn malformed_percent_is_ignored() {
    assert!(parse_progress_line("[download] abc% of 10.00MiB").is_none());
}

#[test]
fn two_dots_are_not_a_number() {
    assert!(parse_progress_line("[download] 4.5.6% of 10.00MiB").is_none());
}

#[test]
fn lone_dot_is_not_a_number() {
    assert!(parse_progress_line("[download] .% of 10.00MiB").is_none());
}

#[test]
fn huge_percent_is_ignored() {
    assert!(parse_progress_line("[download] 123456789012% of x").is_none());
}

#[test]
fn status_carries_speed_and_eta_verbatim() {
    let e = parse_progress_line("[download]  45.2% of 123.45MiB at 1.23MiB/s ETA 00:30").unwrap();
    assert_eq!(e.status, "Downloading... 45.2% at 1.23MiB/s (ETA: 00:30)");
    assert!(e.status.contains("1.23MiB/s"));
    assert!(e.status.contains("00:30"));
}

#[test]
fn status_without_markers_is_percentage_only() {
    let e = parse_progress_line("[download]  45.2% of 123.45MiB").unwrap();
    assert_eq!(e.status, "Downloading... 45.2%");
}

#[test]
fn status_with_only_speed_marker_is_percentage_only() {
    let e = parse_progress_line("[download]  45.2% of x at 1.23MiB/s").unwrap();
    assert_eq!(e.status, "Downloading... 45.2%");
}

#[test]
fn destination_line_prepares() {
    let e = parse_progress_line("[download] Destination: /tmp/video.mp4").unwrap();
    assert_eq!(e.fraction_ppm, 0);
    assert_eq!(e.status, "Preparing download...");
}

#[test]
fn hundred_percent_line_completes() {
    let e = parse_progress_line("[download] 100% of 10.00MiB").unwrap();
    assert_eq!(e.fraction_ppm, 1_000_000);
    assert_eq!(e.status, "Download completed!");
}

#[test]
fn extract_audio_marker() {
    let e = parse_progress_line("[ExtractAudio] Destination is elsewhere").unwrap();
    assert_eq!(e.fraction_ppm, 900_000);
    assert_eq!(e.status, "Extracting audio...");
}

#[test]
fn ffmpeg_marker() {
    let e = parse_progress_line("[ffmpeg] Merging formats").unwrap();
    assert_eq!(e.fraction_ppm, 950_000);
    assert_eq!(e.status, "Converting to MP3...");
}

#[test]
fn unrelated_line_is_nothing() {
    assert!(parse_progress_line("[info] Downloading webpage").is_none());
    assert!(parse_progress_line("").is_none());
}
