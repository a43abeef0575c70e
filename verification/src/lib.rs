//! Process-supervision and progress-reporting core for a media-download
//! front end.
//!
//! The library parses the textual output of an external download tool into
//! structured progress and path-discovery events, formats metadata for
//! display, decides when the tool needs a self-update, and drives the
//! interface state machine.  All I/O (process spawning, stream reads,
//! network calls, the window loop) lives outside the library; callers hand
//! in plain values and receive plain values back.

pub mod errors;
pub mod format;
pub mod metadata;
pub mod paths;
pub mod progress;
pub mod state;
pub mod stream;
pub mod supervisor;
pub mod text;
pub mod url;
pub mod version;
