//! The failure kinds the library distinguishes, and their display text.
//!
//! Each kind answers a different caller question: whether to reject the
//! input, whether a usable tool binary exists at all, whether the tool
//! ran and failed, and whether an update attempt may be ignored.

use vstd::prelude::*;
use vstd::string::StringExecFns;

verus! {

/// A failure surfaced by the library's decision functions.
#[derive(Debug, Clone)]
pub enum DownloadError {
    /// The request was rejected before any process or network activity.
    InvalidInput(String),
    /// The tool exited non-zero without writing to its error stream, or
    /// no tool binary exists.
    ToolNotFound,
    /// The tool exited non-zero; the payload is the captured text of its
    /// error stream.
    ToolExecutionError(String),
    /// A release-feed or asset request failed or timed out.
    NetworkError(String),
    /// A JSON document (release feed or metadata dump) did not parse.
    ParseError(String),
    /// A filesystem write or directory creation failed.
    IoError(String),
    /// The staged file was absent or empty after the write.
    VerificationError,
}

/// The human-readable text shown for each failure kind.
pub open spec fn spec_message(e: DownloadError) -> Seq<char> {
    match e {
        DownloadError::InvalidInput(m) => m@,
        DownloadError::ToolNotFound =>
            "yt-dlp.exe not found. Please place yt-dlp.exe in the same folder as this application."@,
        DownloadError::ToolExecutionError(t) => "yt-dlp failed: "@ + t@,
        DownloadError::NetworkError(d) => "Network error: "@ + d@,
        DownloadError::ParseError(d) => "Could not parse: "@ + d@,
        DownloadError::IoError(d) => "File error: "@ + d@,
        DownloadError::VerificationError => "The downloaded file was missing or empty after the write"@,
    }
}

impl DownloadError {
    /// Render the failure for display.
    pub fn message(&self) -> (r: String)
        ensures
            r@ == spec_message(*self),
    {
        match self {
            DownloadError::InvalidInput(m) => m.clone(),
            DownloadError::ToolNotFound => String::from_str(
                "yt-dlp.exe not found. Please place yt-dlp.exe in the same folder as this application.",
            ),
            DownloadError::ToolExecutionError(t) => {
                let mut r = String::from_str("yt-dlp failed: ");
                r.append(t.as_str());
                r
            },
            DownloadError::NetworkError(d) => {
                let mut r = String::from_str("Network error: ");
                r.append(d.as_str());
                r
            },
            DownloadError::ParseError(d) => {
                let mut r = String::from_str("Could not parse: ");
                r.append(d.as_str());
                r
            },
            DownloadError::IoError(d) => {
                let mut r = String::from_str("File error: ");
                r.append(d.as_str());
                r
            },
            DownloadError::VerificationError => String::from_str(
                "The downloaded file was missing or empty after the write",
            ),
        }
    }
}

} // verus!
