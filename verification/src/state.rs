//! The interface-facing state machine and the bounded console log.
//!
//! The interface renders exactly one state at a time and changes it only
//! through the reducers here, which are driven by user actions and by
//! the typed events a worker sends over the message channel.  The
//! channel itself and the worker threads live in the caller; every
//! transition decision is made and verified here.

use vstd::prelude::*;
use vstd::string::StringExecFns;
use crate::errors::spec_message;
use crate::errors::DownloadError;
use crate::metadata::VideoInfo;
use crate::url::is_valid_youtube_url;
use crate::url::valid_media_url;

verus! {

/// What the user asked to be produced.
#[derive(Clone, Copy, Debug, PartialEq, Eq, Structural)]
pub enum DownloadFormat {
    Mp4,
    Mp3,
}

/// The one state the interface is in.
#[derive(Debug, Clone)]
pub enum AppState {
    Input,
    Loading,
    VideoInfo(VideoInfo),
    Downloading { progress_ppm: u64, status: String },
    Error(String),
    Success(String),
}

/// A typed event a worker sends to the interface.
#[derive(Debug)]
pub enum AppMessage {
    VideoInfoReceived(Result<VideoInfo, DownloadError>),
    DownloadProgress(u64, String),
    DownloadComplete(Result<String, DownloadError>),
    ConsoleOutput(String),
}

/// How many console lines are retained for display.
pub const LOG_CAP: usize = 50;

/// The retained tail of the tool's console output, oldest line first.
pub struct Console {
    lines: Vec<String>,
}

impl Console {
    /// The retained lines.
    pub closed spec fn view_lines(self) -> Seq<String> {
        self.lines@
    }

    /// Never more than the cap.
    pub open spec fn wf(self) -> bool {
        self.view_lines().len() <= LOG_CAP
    }

    /// What pushing one line leaves retained: the line is appended, and
    /// when that passes the cap the oldest line is evicted.
    pub open spec fn spec_pushed(before: Seq<String>, line: String) -> Seq<String> {
        let appended = before.push(line);
        if appended.len() > LOG_CAP {
            appended.drop_first()
        } else {
            appended
        }
    }

    pub fn new() -> (c: Console)
        ensures
            c.wf(),
            c.view_lines() == Seq::<String>::empty(),
    {
        Console { lines: Vec::new() }
    }

    /// Append a line, evicting the oldest once the cap is reached.
    pub fn push_line(&mut self, line: String)
        requires
            old(self).wf(),
        ensures
            final(self).wf(),
            final(self).view_lines() == Self::spec_pushed(old(self).view_lines(), line),
    {
        self.lines.push(line);
        if self.lines.len() > LOG_CAP {
            self.lines.remove(0);
            proof {
                assert(self.lines@ =~= old(self).lines@.push(line).drop_first());
            }
        }
    }

    /// Forget everything, as each new operation does before it starts.
    pub fn clear_lines(&mut self)
        ensures
            final(self).wf(),
            final(self).view_lines() == Seq::<String>::empty(),
    {
        self.lines.clear();
    }

    /// Number of retained lines.
    pub fn len(&self) -> (n: usize)
        ensures
            n == self.view_lines().len(),
    {
        self.lines.len()
    }

    /// The retained line at `i`, oldest first.
    pub fn line_at(&self, i: usize) -> (r: &String)
        requires
            i < self.view_lines().len(),
        ensures
            *r == self.view_lines()[i as int],
    {
        &self.lines[i]
    }
}

/// Decide the state a fetch request leads to: loading when the address
/// is acceptable, an error shown otherwise.
pub fn on_fetch_request(url: &str) -> (s: AppState)
    ensures
        valid_media_url(url@) ==> s matches AppState::Loading,
        !valid_media_url(url@) ==> (s matches AppState::Error(m) && m@ == "Invalid YouTube URL"@),
{
    if is_valid_youtube_url(url) {
        AppState::Loading
    } else {
        AppState::Error(String::from_str("Invalid YouTube URL"))
    }
}

/// Decide whether a download may start: only from the state that shows
/// fetched metadata.  The flag says whether the caller should spawn the
/// worker; in every other state nothing changes.
pub fn on_download_request(state: AppState) -> (r: (AppState, bool))
    ensures
        (state matches AppState::VideoInfo(_)) ==> ({
            &&& r.0 matches AppState::Downloading { progress_ppm, status } && progress_ppm == 0
                && status@ == "Starting download..."@
            &&& r.1 == true
        }),
        !(state matches AppState::VideoInfo(_)) ==> r.0 == state && r.1 == false,
{
    match state {
        AppState::VideoInfo(_) => (
            AppState::Downloading {
                progress_ppm: 0,
                status: String::from_str("Starting download..."),
            },
            true,
        ),
        other => (other, false),
    }
}

/// Fold one worker event into the interface state and the console.  The
/// boolean asks the caller to tear the finished operation's channel
/// down, so a superseded worker cannot leak events into a later
/// operation.
pub fn apply_message(state: AppState, console: &mut Console, msg: AppMessage) -> (r: (
    AppState,
    bool,
))
    requires
        old(console).wf(),
    ensures
        final(console).wf(),
        match msg {
            AppMessage::VideoInfoReceived(res) => {
                &&& final(console).view_lines() == old(console).view_lines()
                &&& r.1 == true
                &&& match res {
                    Ok(v) => r.0 == AppState::VideoInfo(v),
                    Err(e) => r.0 matches AppState::Error(m) && m@
                        == "Failed to fetch video info: "@ + spec_message(e),
                }
            },
            AppMessage::DownloadProgress(p, st) => {
                &&& final(console).view_lines() == old(console).view_lines()
                &&& r.1 == false
                &&& r.0 == (AppState::Downloading { progress_ppm: p, status: st })
            },
            AppMessage::DownloadComplete(res) => {
                &&& final(console).view_lines() == old(console).view_lines()
                &&& r.1 == true
                &&& match res {
                    Ok(p) => r.0 matches AppState::Success(m) && m@
                        == "✅ Download completed successfully!\nSaved to: "@ + p@,
                    Err(e) => r.0 matches AppState::Error(m) && m@ == "❌ Download failed: "@
                        + spec_message(e),
                }
            },
            AppMessage::ConsoleOutput(line) => {
                &&& final(console).view_lines() == Console::spec_pushed(
                    old(console).view_lines(),
                    line,
                )
                &&& r.1 == false
                &&& r.0 == state
            },
        },
{
    match msg {
        AppMessage::VideoInfoReceived(res) => {
            match res {
                Ok(v) => (AppState::VideoInfo(v), true),
                Err(e) => {
                    let mut m = String::from_str("Failed to fetch video info: ");
                    let t = e.message();
                    m.append(t.as_str());
                    (AppState::Error(m), true)
                },
            }
        },
        AppMessage::DownloadProgress(p, st) => (
            AppState::Downloading { progress_ppm: p, status: st },
            false,
        ),
        AppMessage::DownloadComplete(res) => {
            match res {
                Ok(p) => {
                    let mut m = String::from_str("✅ Download completed successfully!\nSaved to: ");
                    m.append(p.as_str());
                    (AppState::Success(m), true)
                },
                Err(e) => {
                    let mut m = String::from_str("❌ Download failed: ");
                    let t = e.message();
                    m.append(t.as_str());
                    (AppState::Error(m), true)
                },
            }
        },
        AppMessage::ConsoleOutput(line) => {
            console.push_line(line);
            (state, false)
        },
    }
}

} // verus!
