//! Operations on the canonical model behind the shared timer.
//!
//! The canonical run and timer live behind a reader/writer lock shared with
//! the hotkey listener thread, so no two reads are related: each function
//! here reports or changes the state at the moment its lock is taken. What is
//! deterministic — which byte sequences parse, when a replacement is rejected
//! — is stated exactly.
use vstd::prelude::*;

use crate::livesplit::{
    parse_run_bytes, parsed_run_empty, run_parses, shared_timer_is_dirty, shared_timer_phase,
    shared_timer_replace_run, shared_timer_serialize_marking_saved,
};

verus! {

/// Why loading splits failed.
#[derive(Clone, Copy, Debug, PartialEq, Eq, Structural)]
pub enum LoadSplitsError {
    /// The splits file could not be read.
    IoError,
    /// The bytes were not recognized as splits, or the parsed run was
    /// rejected by the timer.
    ParseError,
}

impl LoadSplitsError {
    /// The user-facing description of the failure.
    pub fn message(&self) -> (r: &'static str)
        ensures
            *self is IoError ==> r@ == "Failed to load run"@,
            *self is ParseError ==> r@ == "Failed to parse run"@,
    {
        match self {
            LoadSplitsError::IoError => "Failed to load run",
            LoadSplitsError::ParseError => "Failed to parse run",
        }
    }
}

/// Why saving splits failed.
#[derive(Clone, Copy, Debug, PartialEq, Eq, Structural)]
pub enum SaveSplitsError {
    /// The splits file could not be written.
    IoError,
    /// The run could not be serialized.
    ParseError,
}

impl SaveSplitsError {
    /// The user-facing description of the failure.
    pub fn message(&self) -> (r: &'static str)
        ensures
            *self is IoError ==> r@ == "Failed to serialize run"@,
            *self is ParseError ==> r@ == "Failed to write run"@,
    {
        match self {
            SaveSplitsError::IoError => "Failed to serialize run",
            SaveSplitsError::ParseError => "Failed to write run",
        }
    }
}

/// Why loading a layout failed.
#[derive(Clone, Copy, Debug, PartialEq, Eq, Structural)]
pub enum LoadLayoutError {
    /// The layout file could not be read.
    IoError,
    /// The file was neither a settings document nor a legacy layout.
    ParseError,
}

impl LoadLayoutError {
    /// The user-facing description of the failure.
    pub fn message(&self) -> (r: &'static str)
        ensures
            *self is IoError ==> r@ == "Failed to load layout"@,
            *self is ParseError ==> r@ == "Failed to parse layout"@,
    {
        match self {
            LoadLayoutError::IoError => "Failed to load layout",
            LoadLayoutError::ParseError => "Failed to parse layout",
        }
    }
}

/// Whether the canonical run currently carries unsaved modifications, at the
/// moment the lock is taken.
pub fn is_dirty(timer: &livesplit_core::SharedTimer) -> bool {
    shared_timer_is_dirty(timer)
}

/// Whether an attempt is underway — the timer running or paused — at the
/// moment the lock is taken; destructive actions must then be confirmed.
pub fn is_timer_mid_run(timer: &livesplit_core::SharedTimer) -> bool {
    let phase = shared_timer_phase(timer);
    phase.is_mid_run()
}

/// Replaces the canonical run with one parsed from the given bytes, updating
/// the splits of any attempt being reset. Nothing happens while the timer is
/// mid-run (the result is then `Ok(false)`). Exactly the byte sequences the
/// splits parsers recognize are accepted; a load of bytes that parse to a
/// run the timer accepts — any run with a segment — is owed to succeed, a
/// parsed run the timer rejects is reported like a parse failure, and no
/// read failure arises here.
pub fn load_splits_from_bytes(timer: &livesplit_core::SharedTimer, data: &[u8]) -> (r: Result<
    bool,
    LoadSplitsError,
>)
    ensures
        r matches Ok(true) ==> run_parses(data@),
        r matches Err(e) ==> e is ParseError,
        !run_parses(data@) ==> !(r matches Ok(true)),
        run_parses(data@) && !parsed_run_empty(data@) ==> r is Ok,
        r is Err ==> !run_parses(data@) || parsed_run_empty(data@),
{
    let phase = shared_timer_phase(timer);
    if phase.is_mid_run() {
        return Ok(false);
    }
    match parse_run_bytes(data) {
        None => Err(LoadSplitsError::ParseError),
        Some(run) => {
            if shared_timer_replace_run(timer, run, true) {
                Ok(true)
            } else {
                Err(LoadSplitsError::ParseError)
            }
        },
    }
}

/// Serializes the canonical run for saving and marks it unmodified, in one
/// transaction under the lock; writing the document to disk is the caller's
/// edge. A failure here is a serialization failure, never a write failure.
pub fn serialize_splits(timer: &livesplit_core::SharedTimer) -> (r: Result<
    String,
    SaveSplitsError,
>)
    ensures
        r matches Err(e) ==> e is ParseError,
{
    match shared_timer_serialize_marking_saved(timer) {
        Some(document) => Ok(document),
        None => Err(SaveSplitsError::ParseError),
    }
}

} // verus!
