use ytgrab::paths::parse_path_line;
use ytgrab::stream::StreamScan;

#[test]
fn destination_pattern() {
    let p = parse_path_line("[download] Destination: /tmp/video.mp4").unwrap();
    assert_eq!(p, "/tmp/video.mp4");
}

#[test]
fn already_downloaded_pattern() {
    let p = parse_path_line("[download] /tmp/video.mp4 has already been downloaded").unwrap();
    assert_eq!(p, "/tmp/video.mp4");
}

#[test]
fn merge_pattern() {
    let p = parse_path_line("[Merger] Merging formats into \"/tmp/video.mp4\"").unwrap();
    assert_eq!(p, "/tmp/video.mp4");
}

#[test]
fn no_pattern_no_path() {
    assert!(parse_path_line("[download]  45.0% of 10.00MiB").is_none());
    assert!(parse_path_line("").is_none());
}

#[test]
fn last_discovery_wins_across_patterns() {
    let mut scan = StreamScan::new();
    scan.note_line("[download] Destination: /tmp/part.f137.mp4");
    scan.note_line("[download]  45.0% of 10.00MiB at 1.00MiB/s ETA 00:05");
    scan.note_line("[download] /tmp/old.mp4 has already been downloaded");
    scan.note_line("[Merger] Merging formats into \"/tmp/final.mp4\"");
    let (path, warned) = scan.final_path("/tmp");
    assert_eq!(path, "/tmp/final.mp4");
    assert!(!warned);
}

#[test]
fn later_destination_overwrites_earlier() {
    let mut scan = StreamScan::new();
    scan.note_line("[download] Destination: /tmp/a.mp4");
    scan.note_line("[download] Destination: /tmp/b.mp4");
    let (path, warned) = scan.final_path("/tmp");
    assert_eq!(path, "/tmp/b.mp4");
    assert!(!warned);
}

#[test]
fn fallback_to_requested_directory_warns() {
    let mut scan = StreamScan::new();
    scan.note_line("[download]  45.0% of 10.00MiB");
    let (path, warned) = scan.final_path("/home/user/Downloads");
    assert_eq!(path, "/home/user/Downloads");
    assert!(warned);
}

#[test]
fn discovered_value_is_one_complete_write() {
    // Two writers race to record a discovery; whatever order their whole
    // values arrive in, the slot holds exactly one of them.
    let first = "[download] Destination: /tmp/one.mp4";
    let second = "[download] Destination: /tmp/two.mp4";
    for (a, b) in [(first, second), (second, first)] {
        let mut scan = StreamScan::new();
        scan.note_line(a);
        scan.note_line(b);
        let (path, _) = scan.final_path("/tmp");
        assert!(path == "/tmp/one.mp4" || path == "/tmp/two.mp4");
    }
}

#[test]
fn end_to_end_stream_scenario() {
    let mut scan = StreamScan::new();

    let e1 = scan.note_line("[download] Destination: /tmp/video.mp4");
    assert_eq!(e1.unwrap().fraction_ppm, 0);
    let (path, warned) = scan.final_path("/tmp");
    assert_eq!(path, "/tmp/video.mp4");
    assert!(!warned);

    let e2 = scan
        .note_line("[download]  45.0% of 10.00MiB at 1.00MiB/s ETA 00:05")
        .unwrap();
    assert_eq!(e2.fraction_ppm, 450_000);
    assert!(e2.status.contains("1.00MiB/s"));
    assert!(e2.status.contains("00:05"));

    let e3 = scan.note_line("[download] 100% of 10.00MiB").unwrap();
    assert_eq!(e3.fraction_ppm, 1_000_000);
    assert_eq!(e3.status, "Download completed!");

    let (path, warned) = scan.final_path("/tmp");
    assert_eq!(path, "/tmp/video.mp4");
    assert!(!warned);
}
