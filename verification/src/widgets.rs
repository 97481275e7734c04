//! The decision rule of the focus-tracking text-input wrapper.
//!
//! The wrapper widget around a text input watches the input's focus across
//! each event and publishes a message only on a change, so a field learns
//! exactly once that it gained or lost focus (its blur rule hangs on that).
//! The widget itself belongs to the window toolkit; the rule it applies is
//! here.
use vstd::prelude::*;

verus! {

/// The message a focus-watching wrapper publishes after an event: the new
/// focus state if it changed, and nothing otherwise.
pub fn focus_change_message(focused_before: bool, focused_after: bool) -> (r: Option<bool>)
    ensures
        focused_before != focused_after ==> r == Some(focused_after),
        focused_before == focused_after ==> r is None,
{
    if focused_before != focused_after {
        Some(focused_after)
    } else {
        None
    }
}

} // verus!
