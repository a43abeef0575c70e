use ytgrab::errors::DownloadError;
use ytgrab::metadata::build_video_info;
use ytgrab::metadata::parse_metadata_output;
use ytgrab::metadata::parse_release_output;
use ytgrab::supervisor::classify_tool_exit;
use ytgrab::supervisor::download_args;
use ytgrab::supervisor::metadata_args;
use ytgrab::supervisor::version_args;
use ytgrab::state::DownloadFormat;

#[test]
fn build_with_all_fields() {
    let v = build_video_info(
        Some("A title".to_string()),
        Some(125),
        Some("Someone".to_string()),
        Some(1234567),
        Some("https://example.invalid/thumb.jpg".to_string()),
    );
    assert_eq!(v.title, "A title");
    assert_eq!(v.duration, "2:05");
    assert_eq!(v.uploader, "Someone");
    assert_eq!(v.view_count, Some(1234567));
    assert_eq!(v.thumbnail.as_deref(), Some("https://example.invalid/thumb.jpg"));
}

#[test]
fn build_defaults_for_missing_fields() {
    let v = build_video_info(None, None, None, None, None);
    assert_eq!(v.title, "Unknown");
    assert_eq!(v.duration, "0:00");
    assert_eq!(v.uploader, "Unknown");
    assert_eq!(v.view_count, None);
    assert_eq!(v.thumbnail, None);
}

#[test]
fn metadata_dump_is_extracted() {
    let text = "{\"title\": \"A title\", \"duration\": 3725, \"uploader\": \"Someone\", \
                \"view_count\": 1234567, \"thumbnail\": \"https://example.invalid/t.jpg\"}";
    let v = parse_metadata_output(text).unwrap();
    assert_eq!(v.title, "A title");
    assert_eq!(v.duration, "1:02:05");
    assert_eq!(v.uploader, "Someone");
    assert_eq!(v.view_count, Some(1234567));
    assert_eq!(v.thumbnail.as_deref(), Some("https://example.invalid/t.jpg"));
}

#[test]
fn fractional_duration_is_truncated() {
    let v = parse_metadata_output("{\"duration\": 125.7}").unwrap();
    assert_eq!(v.duration, "2:05");
}

#[test]
fn metadata_dump_with_missing_fields_defaults() {
    let v = parse_metadata_output("{}").unwrap();
    assert_eq!(v.title, "Unknown");
    assert_eq!(v.duration, "0:00");
    assert_eq!(v.uploader, "Unknown");
    assert_eq!(v.view_count, None);
    assert_eq!(v.thumbnail, None);
}

#[test]
fn malformed_metadata_is_a_parse_error() {
    assert!(matches!(
        parse_metadata_output("not json at all"),
        Err(DownloadError::ParseError(_))
    ));
}

#[test]
fn release_feed_is_extracted() {
    let text = "{\"tag_name\": \"2023.06.01\", \"assets\": [\
                {\"name\": \"yt-dlp.exe\", \"browser_download_url\": \"https://example.invalid/a\"},\
                {\"name\": \"broken entry\"},\
                {\"name\": \"yt-dlp\", \"browser_download_url\": \"https://example.invalid/b\"}]}";
    let r = parse_release_output(text).unwrap();
    assert_eq!(r.tag, "2023.06.01");
    assert_eq!(r.assets.len(), 2);
    assert_eq!(r.assets[0].name, "yt-dlp.exe");
    assert_eq!(r.assets[0].url, "https://example.invalid/a");
    assert_eq!(r.assets[1].name, "yt-dlp");
}

#[test]
fn release_feed_without_tag_is_a_parse_error() {
    assert!(matches!(
        parse_release_output("{\"assets\": []}"),
        Err(DownloadError::ParseError(_))
    ));
}

#[test]
fn release_feed_without_assets_is_a_parse_error() {
    assert!(matches!(
        parse_release_output("{\"tag_name\": \"x\"}"),
        Err(DownloadError::ParseError(_))
    ));
}

#[test]
fn metadata_fetch_arguments() {
    let args = metadata_args("https://youtu.be/abc");
    assert_eq!(args, vec!["--dump-json", "--no-playlist", "https://youtu.be/abc"]);
}

#[test]
fn version_probe_arguments() {
    assert_eq!(version_args(), vec!["--version"]);
}

#[test]
fn video_download_arguments() {
    let args = download_args("https://youtu.be/abc", "C:\\Videos", DownloadFormat::Mp4);
    assert_eq!(
        args,
        vec![
            "--newline",
            "--no-warnings",
            "--output",
            "C:\\Videos\\%(title)s.%(ext)s",
            "https://youtu.be/abc",
            "--format",
            "best[ext=mp4]/best",
        ]
    );
}

#[test]
fn audio_download_arguments() {
    let args = download_args("https://youtu.be/abc", "C:\\Music", DownloadFormat::Mp3);
    assert_eq!(
        args,
        vec![
            "--newline",
            "--no-warnings",
            "--output",
            "C:\\Music\\%(title)s.%(ext)s",
            "https://youtu.be/abc",
            "-x",
            "--audio-format",
            "mp3",
        ]
    );
}

#[test]
fn successful_exit_passes() {
    assert!(classify_tool_exit(true, "").is_ok());
}

#[test]
fn failed_exit_with_error_text_surfaces_it() {
    match classify_tool_exit(false, "ERROR: Video unavailable") {
        Err(DownloadError::ToolExecutionError(t)) => {
            assert_eq!(t, "ERROR: Video unavailable")
        },
        _ => panic!("expected the tool-execution error"),
    }
}

#[test]
fn failed_exit_without_error_text_means_missing_tool() {
    assert!(matches!(
        classify_tool_exit(false, ""),
        Err(DownloadError::ToolNotFound)
    ));
}
