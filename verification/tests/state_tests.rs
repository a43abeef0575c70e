use ytgrab::errors::DownloadError;
use ytgrab::metadata::VideoInfo;
use ytgrab::state::apply_message;
use ytgrab::state::on_download_request;
use ytgrab::state::on_fetch_request;
use ytgrab::state::AppMessage;
use ytgrab::state::AppState;
use ytgrab::state::Console;

fn sample_info() -> VideoInfo {
    VideoInfo {
        title: "A title".to_string(),
        duration: "2:05".to_string(),
        uploader: "Someone".to_string(),
        view_count: Some(999),
        thumbnail: None,
    }
}

#[test]
fn fetch_request_with_valid_url_loads() {
    assert!(matches!(
        on_fetch_request("https://www.youtube.com/watch?v=abc"),
        AppState::Loading
    ));
}

#[test]
fn fetch_request_with_invalid_url_errors() {
    match on_fetch_request("ftp://example.com/x") {
        AppState::Error(m) => assert_eq!(m, "Invalid YouTube URL"),
        _ => panic!("expected an error state"),
    }
}

#[test]
fn download_request_needs_metadata() {
    let (s, started) = on_download_request(AppState::VideoInfo(sample_info()));
    assert!(started);
    match s {
        AppState::Downloading { progress_ppm, status } => {
            assert_eq!(progress_ppm, 0);
            assert_eq!(status, "Starting download...");
        },
        _ => panic!("expected the downloading state"),
    }

    let (s, started) = on_download_request(AppState::Input);
    assert!(!started);
    assert!(matches!(s, AppState::Input));
}

#[test]
fn metadata_arrival_shows_it_and_clears_channel() {
    let mut console = Console::new();
    let (s, clear) = apply_message(
        AppState::Loading,
        &mut console,
        AppMessage::VideoInfoReceived(Ok(sample_info())),
    );
    assert!(clear);
    match s {
        AppState::VideoInfo(v) => assert_eq!(v.title, "A title"),
        _ => panic!("expected the metadata state"),
    }
}

#[test]
fn metadata_failure_shows_error() {
    let mut console = Console::new();
    let (s, clear) = apply_message(
        AppState::Loading,
        &mut console,
        AppMessage::VideoInfoReceived(Err(DownloadError::ToolExecutionError(
            "boom".to_string(),
        ))),
    );
    assert!(clear);
    match s {
        AppState::Error(m) => assert_eq!(m, "Failed to fetch video info: yt-dlp failed: boom"),
        _ => panic!("expected an error state"),
    }
}

#[test]
fn progress_updates_do_not_clear_channel() {
    let mut console = Console::new();
    let (s, clear) = apply_message(
        AppState::Loading,
        &mut console,
        AppMessage::DownloadProgress(450_000, "Downloading... 45.0%".to_string()),
    );
    assert!(!clear);
    match s {
        AppState::Downloading { progress_ppm, status } => {
            assert_eq!(progress_ppm, 450_000);
            assert_eq!(status, "Downloading... 45.0%");
        },
        _ => panic!("expected the downloading state"),
    }
}

#[test]
fn completion_shows_path_and_clears_channel() {
    let mut console = Console::new();
    let (s, clear) = apply_message(
        AppState::Downloading { progress_ppm: 990_000, status: "x".to_string() },
        &mut console,
        AppMessage::DownloadComplete(Ok("/tmp/video.mp4".to_string())),
    );
    assert!(clear);
    match s {
        AppState::Success(m) => {
            assert_eq!(m, "✅ Download completed successfully!\nSaved to: /tmp/video.mp4")
        },
        _ => panic!("expected the success state"),
    }
}

#[test]
fn download_failure_with_error_text() {
    let mut console = Console::new();
    let (s, clear) = apply_message(
        AppState::Downloading { progress_ppm: 0, status: "x".to_string() },
        &mut console,
        AppMessage::DownloadComplete(Err(DownloadError::ToolExecutionError(
            "ERROR: no formats".to_string(),
        ))),
    );
    assert!(clear);
    match s {
        AppState::Error(m) => {
            assert_eq!(m, "❌ Download failed: yt-dlp failed: ERROR: no formats")
        },
        _ => panic!("expected an error state"),
    }
}

#[test]
fn download_failure_without_error_text_names_missing_tool() {
    let mut console = Console::new();
    let (s, _) = apply_message(
        AppState::Downloading { progress_ppm: 0, status: "x".to_string() },
        &mut console,
        AppMessage::DownloadComplete(Err(DownloadError::ToolNotFound)),
    );
    match s {
        AppState::Error(m) => assert!(m.contains("yt-dlp.exe not found")),
        _ => panic!("expected an error state"),
    }
}

#[test]
fn console_output_keeps_state() {
    let mut console = Console::new();
    let (s, clear) = apply_message(
        AppState::Input,
        &mut console,
        AppMessage::ConsoleOutput("a line".to_string()),
    );
    assert!(!clear);
    assert!(matches!(s, AppState::Input));
    assert_eq!(console.len(), 1);
    assert_eq!(console.line_at(0), "a line");
}

#[test]
fn console_keeps_only_the_last_fifty_lines() {
    let mut console = Console::new();
    for i in 0..55 {
        console.push_line(format!("line {}", i));
    }
    assert_eq!(console.len(), 50);
    assert_eq!(console.line_at(0), "line 5");
    assert_eq!(console.line_at(49), "line 54");
}

#[test]
fn console_clears() {
    let mut console = Console::new();
    console.push_line("x".to_string());
    console.clear_lines();
    assert_eq!(console.len(), 0);
}
