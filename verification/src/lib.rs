//! Editing-session consistency and lifecycle orchestration for a split timer.
//!
//! The crate keeps a transient, user-editable view of structured timing data
//! consistent with a canonical model, stages exclusive key bindings with a
//! two-phase commit, and sequences cancellable confirmation workflows so that
//! a cancellation is always honored before an irreversible action runs.
use vstd::prelude::*;

pub mod hotkeys;
pub mod lifecycle;
pub mod livesplit;
pub mod model;
pub mod numbers;
pub mod session;
pub mod widgets;
pub mod windows;

verus! {

/// The phase of the canonical timer, as the workflow logic reads it.
pub enum TimerPhaseKind {
    /// No attempt is underway.
    NotRunning,
    /// An attempt is underway and the clock is moving.
    Running,
    /// The attempt finished but was not reset yet.
    Ended,
    /// An attempt is underway and paused.
    Paused,
}

impl TimerPhaseKind {
    /// A run is in progress exactly when the timer is running or paused.
    pub fn is_mid_run(&self) -> (r: bool)
        ensures
            r == (self is Running || self is Paused),
    {
        match self {
            TimerPhaseKind::Running => true,
            TimerPhaseKind::Paused => true,
            _ => false,
        }
    }
}

} // verus!
