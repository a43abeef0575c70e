//! What the external tool is told to do, and what its exit means.
//!
//! The caller spawns the tool and drains its streams; the exact argument
//! vectors handed to it and the reading of its exit status are decided
//! and verified here.

use vstd::prelude::*;
use vstd::string::StrSliceExecFns;
use vstd::string::StringExecFns;
use crate::errors::DownloadError;
use crate::state::DownloadFormat;

verus! {

/// The output template: the chosen directory joined with the tool's
/// title-and-extension placeholder pattern.
pub open spec fn spec_output_template(dir: Seq<char>) -> Seq<char> {
    dir + "\\%(title)s.%(ext)s"@
}

pub fn output_template(dir: &str) -> (t: String)
    ensures
        t@ == spec_output_template(dir@),
{
    let mut t = String::from_str(dir);
    t.append("\\%(title)s.%(ext)s");
    t
}

/// Arguments for a metadata fetch: a single-item JSON dump, no playlist
/// expansion.
pub open spec fn spec_metadata_args(url: Seq<char>) -> Seq<Seq<char>> {
    seq!["--dump-json"@, "--no-playlist"@, url]
}

pub fn metadata_args(url: &str) -> (r: Vec<String>)
    ensures
        r.deep_view() == spec_metadata_args(url@),
{
    let mut r: Vec<String> = Vec::new();
    r.push(String::from_str("--dump-json"));
    r.push(String::from_str("--no-playlist"));
    r.push(String::from_str(url));
    proof {
        assert(r.deep_view() =~= spec_metadata_args(url@));
    }
    r
}

/// Arguments for the version probe.
pub open spec fn spec_version_args() -> Seq<Seq<char>> {
    seq!["--version"@]
}

pub fn version_args() -> (r: Vec<String>)
    ensures
        r.deep_view() == spec_version_args(),
{
    let mut r: Vec<String> = Vec::new();
    r.push(String::from_str("--version"));
    proof {
        assert(r.deep_view() =~= spec_version_args());
    }
    r
}

/// Arguments for a download: line-buffered progress, no warnings, the
/// output template, the address, then the format-specific flags — audio
/// extraction and transcoding for audio only, otherwise a selector
/// preferring the best matching container with a best-available
/// fallback.
pub open spec fn spec_download_args(
    url: Seq<char>,
    dir: Seq<char>,
    fmt: DownloadFormat,
) -> Seq<Seq<char>> {
    let base = seq![
        "--newline"@,
        "--no-warnings"@,
        "--output"@,
        spec_output_template(dir),
        url,
    ];
    match fmt {
        DownloadFormat::Mp3 => base + seq!["-x"@, "--audio-format"@, "mp3"@],
        DownloadFormat::Mp4 => base + seq!["--format"@, "best[ext=mp4]/best"@],
    }
}

pub fn download_args(url: &str, dir: &str, fmt: DownloadFormat) -> (r: Vec<String>)
    ensures
        r.deep_view() == spec_download_args(url@, dir@, fmt),
{
    let mut r: Vec<String> = Vec::new();
    r.push(String::from_str("--newline"));
    r.push(String::from_str("--no-warnings"));
    r.push(String::from_str("--output"));
    r.push(output_template(dir));
    r.push(String::from_str(url));
    match fmt {
        DownloadFormat::Mp3 => {
            r.push(String::from_str("-x"));
            r.push(String::from_str("--audio-format"));
            r.push(String::from_str("mp3"));
        },
        DownloadFormat::Mp4 => {
            r.push(String::from_str("--format"));
            r.push(String::from_str("best[ext=mp4]/best"));
        },
    }
    proof {
        assert(r.deep_view() =~= spec_download_args(url@, dir@, fmt));
    }
    r
}

/// Read the tool's exit: success passes; a failure with error-stream
/// text surfaces that text, and a failure with an empty error stream
/// means the tool binary itself was not found.
pub fn classify_tool_exit(exit_success: bool, stderr_text: &str) -> (r: Result<(), DownloadError>)
    ensures
        exit_success ==> r is Ok,
        (!exit_success && stderr_text@.len() == 0) ==> (r matches Err(e) && e matches
            DownloadError::ToolNotFound),
        (!exit_success && stderr_text@.len() > 0) ==> (r matches Err(e) && e matches
            DownloadError::ToolExecutionError(t) && t@ == stderr_text@),
{
    if exit_success {
        Ok(())
    } else if stderr_text.unicode_len() == 0 {
        Err(DownloadError::ToolNotFound)
    } else {
        Err(DownloadError::ToolExecutionError(String::from_str(stderr_text)))
    }
}

} // verus!
