//! Hotkey staging and its two-phase commit.
//!
//! The settings dialog edits a staged copy of the nine key-binding slots.
//! Committing replaces the live configuration with a clear-then-set sequence:
//! the all-cleared configuration has no collisions, so a staged set that
//! merely permutes the previous bindings is never spuriously rejected for
//! colliding with a not-yet-updated old value. Discarding the staged copy
//! reloads it from the live system and leaves the live configuration
//! untouched.
use vstd::prelude::*;

use crate::livesplit::{
    config_of_slots, hks_activate, hks_active, hks_config, hks_deactivate, hks_set_config,
    hks_slots, slots_of_config,
};

verus! {

/// The number of key-binding slots: split, reset, undo, skip, pause,
/// undo-all-pauses, previous-comparison, next-comparison,
/// toggle-timing-method.
pub const HOTKEY_SLOTS: usize = 9;

/// One staged key-binding slot of the settings dialog: a fixed label and the
/// binding being edited.
pub struct HotkeyBox {
    /// The label of the action the slot binds.
    pub label: &'static str,
    /// The staged binding, or none for an unbound slot.
    pub value: Option<livesplit_core::hotkey::Hotkey>,
}

impl HotkeyBox {
    /// A fresh unbound slot with the given label.
    pub fn new(label: &'static str) -> (r: HotkeyBox)
        ensures
            r.label == label,
            r.value is None,
    {
        HotkeyBox { label, value: None }
    }
}

/// The bindings a staged slot sequence holds, in slot order.
pub open spec fn staged_slots(boxes: Seq<HotkeyBox>) -> Seq<
    Option<livesplit_core::hotkey::Hotkey>,
> {
    boxes.map_values(|b: HotkeyBox| b.value)
}

/// Whether two slots bind the same physical key: the conflict the live
/// system rejects a configuration for.
pub open spec fn slots_conflict(slots: Seq<Option<livesplit_core::hotkey::Hotkey>>) -> bool {
    exists|i: int, j: int|
        0 <= i < j < slots.len() && #[trigger] slots[i] is Some && slots[i] == #[trigger] slots[j]
}

/// The slot sequence with the bindings of two slots exchanged.
pub open spec fn swapped_slots(
    slots: Seq<Option<livesplit_core::hotkey::Hotkey>>,
    a: int,
    b: int,
) -> Seq<Option<livesplit_core::hotkey::Hotkey>> {
    slots.update(a, slots[b]).update(b, slots[a])
}

/// Why a staged commit was rejected by the live system.
#[derive(Clone, Copy, Debug, PartialEq, Eq, Structural)]
pub enum HotkeyCommitError {
    /// The clearing step was rejected.
    ClearRejected,
    /// The staged configuration itself was rejected; the live system has
    /// already left its previous configuration then — the slots applied
    /// before the rejection hold their staged bindings, the rest are still
    /// cleared. A surfaced limitation of the protocol, not recovered.
    StagedRejected,
}

/// Copies the live configuration into the staged slots, label by label; used
/// when the settings dialog opens and when its edits are discarded. The live
/// system is untouched.
pub fn load_hotkeys_from_hks(
    hks: &livesplit_core::HotkeySystem,
    hotkeys: &mut Vec<HotkeyBox>,
)
    requires
        old(hotkeys)@.len() == HOTKEY_SLOTS,
    ensures
        final(hotkeys)@.len() == HOTKEY_SLOTS,
        staged_slots(final(hotkeys)@) == hks_slots(*hks),
        forall|i: int|
            0 <= i < HOTKEY_SLOTS ==> final(hotkeys)@[i].label == #[trigger] old(
                hotkeys,
            )@[i].label,
{
    let config = hks_config(hks);
    let slots = slots_of_config(&config);
    let mut i: usize = 0;
    while i < HOTKEY_SLOTS
        invariant
            i <= HOTKEY_SLOTS,
            hotkeys@.len() == HOTKEY_SLOTS,
            slots@ == hks_slots(*hks),
            slots@.len() == HOTKEY_SLOTS,
            forall|j: int| 0 <= j < i ==> #[trigger] hotkeys@[j].value == slots@[j],
            forall|j: int|
                0 <= j < HOTKEY_SLOTS ==> hotkeys@[j].label == #[trigger] old(hotkeys)@[j].label,
        decreases HOTKEY_SLOTS - i,
    {
        let fresh = HotkeyBox { label: hotkeys[i].label, value: slots[i] };
        hotkeys[i] = fresh;
        i = i + 1;
    }
    proof {
        assert(staged_slots(hotkeys@) =~= hks_slots(*hks));
    }
}

/// Commits the staged slots to the live hotkey system with the two-phase
/// protocol: first the all-cleared configuration, then the staged one. On
/// success the live system holds exactly the staged bindings. While the
/// system is deactivated — and it is deactivated for as long as the settings
/// dialog is open — neither phase can fail, so the commit is then owed to
/// succeed. If the second phase is rejected, the live system has already
/// left its previous configuration; that is surfaced, not recovered.
pub fn save_hotkeys_to_hks(
    hks: &mut livesplit_core::HotkeySystem,
    hotkeys: &Vec<HotkeyBox>,
) -> (r: Result<(), HotkeyCommitError>)
    requires
        hotkeys@.len() == HOTKEY_SLOTS,
    ensures
        r is Ok ==> hks_slots(*final(hks)) == staged_slots(hotkeys@),
        !hks_active(*old(hks)) ==> r is Ok,
        hks_active(*final(hks)) == hks_active(*old(hks)),
{
    let cleared: Vec<Option<livesplit_core::hotkey::Hotkey>> = vec![None; 9];
    let cleared_config = config_of_slots(&cleared);
    if !hks_set_config(hks, cleared_config) {
        return Err(HotkeyCommitError::ClearRejected);
    }
    let mut staged: Vec<Option<livesplit_core::hotkey::Hotkey>> = Vec::new();
    let mut i: usize = 0;
    while i < HOTKEY_SLOTS
        invariant
            i <= HOTKEY_SLOTS,
            hotkeys@.len() == HOTKEY_SLOTS,
            staged@.len() == i,
            forall|j: int| 0 <= j < i ==> staged@[j] == #[trigger] hotkeys@[j].value,
        decreases HOTKEY_SLOTS - i,
    {
        staged.push(hotkeys[i].value);
        i = i + 1;
    }
    proof {
        assert(staged@ =~= staged_slots(hotkeys@));
    }
    let staged_config = config_of_slots(&staged);
    if !hks_set_config(hks, staged_config) {
        return Err(HotkeyCommitError::StagedRejected);
    }
    Ok(())
}

/// Suspends hotkey dispatch; called when an editor or settings session
/// opens, so the listener thread cannot mutate the canonical model while a
/// working copy is being edited. The configuration is untouched.
pub fn disable_hotkeys(hks: &mut livesplit_core::HotkeySystem) -> (r: bool)
    ensures
        hks_slots(*final(hks)) == hks_slots(*old(hks)),
        r ==> !hks_active(*final(hks)),
{
    hks_deactivate(hks)
}

/// Resumes hotkey dispatch when the session closes. The configuration is
/// untouched.
pub fn enable_hotkeys(hks: &mut livesplit_core::HotkeySystem) -> (r: bool)
    ensures
        hks_slots(*final(hks)) == hks_slots(*old(hks)),
        r ==> hks_active(*final(hks)),
{
    hks_activate(hks)
}

/// Records a focus change of a hotkey slot: focusing a slot makes it the
/// target for the next key press; unfocusing clears the target only if that
/// slot still held it.
pub fn hotkey_focus_change(focused: &mut Option<usize>, index: usize, now_focused: bool)
    ensures
        now_focused ==> *final(focused) == Some(index),
        !now_focused && *old(focused) == Some(index) ==> *final(focused) is None,
        !now_focused && *old(focused) != Some(index) ==> *final(focused) == *old(focused),
{
    if now_focused {
        *focused = Some(index);
    } else {
        match *focused {
            Some(current) => {
                if current == index {
                    *focused = None;
                }
            },
            None => (),
        }
    }
}

/// Clears one staged slot; a slot that does not exist is ignored.
pub fn clear_hotkey(hotkeys: &mut Vec<HotkeyBox>, index: usize)
    ensures
        final(hotkeys)@.len() == old(hotkeys)@.len(),
        index < old(hotkeys)@.len() ==> {
            &&& final(hotkeys)@[index as int].value is None
            &&& final(hotkeys)@[index as int].label == old(hotkeys)@[index as int].label
            &&& forall|j: int|
                0 <= j < old(hotkeys)@.len() && j != index ==> final(hotkeys)@[j] == #[trigger] old(
                    hotkeys,
                )@[j]
        },
        index >= old(hotkeys)@.len() ==> final(hotkeys)@ == old(hotkeys)@,
{
    if index < hotkeys.len() {
        let fresh = HotkeyBox { label: hotkeys[index].label, value: None };
        hotkeys[index] = fresh;
    }
}

/// Stores a pressed key into the focused staged slot, if any slot is
/// focused; with no focused slot, or one that does not exist, the key press
/// is ignored.
pub fn assign_focused_hotkey(
    hotkeys: &mut Vec<HotkeyBox>,
    focused: &Option<usize>,
    key: Option<livesplit_core::hotkey::Hotkey>,
)
    ensures
        final(hotkeys)@.len() == old(hotkeys)@.len(),
        (match *focused {
            Some(index) => index < old(hotkeys)@.len() ==> {
                &&& final(hotkeys)@[index as int].value == key
                &&& final(hotkeys)@[index as int].label == old(hotkeys)@[index as int].label
                &&& forall|j: int|
                    0 <= j < old(hotkeys)@.len() && j != index ==> final(hotkeys)@[j]
                        == #[trigger] old(hotkeys)@[j]
            },
            None => final(hotkeys)@ == old(hotkeys)@,
        }),
        (match *focused {
            Some(index) => index >= old(hotkeys)@.len() ==> final(hotkeys)@ == old(hotkeys)@,
            None => true,
        }),
{
    match *focused {
        Some(index) => {
            if index < hotkeys.len() {
                let fresh = HotkeyBox { label: hotkeys[index].label, value: key };
                hotkeys[index] = fresh;
            }
        },
        None => (),
    }
}

/// Swapping the bindings of two slots of a conflict-free configuration
/// yields a conflict-free configuration: a staged set that is a pure
/// permutation of the live bindings gives the live system's duplicate rule
/// nothing to reject, which with the clear-then-set sequence makes such a
/// commit succeed with exactly the swapped configuration live.
pub proof fn lemma_swapped_slots_conflict_free(
    slots: Seq<Option<livesplit_core::hotkey::Hotkey>>,
    a: int,
    b: int,
)
    requires
        !slots_conflict(slots),
        0 <= a < slots.len(),
        0 <= b < slots.len(),
    ensures
        !slots_conflict(swapped_slots(slots, a, b)),
        swapped_slots(slots, a, b)[a] == slots[b],
        swapped_slots(slots, a, b)[b] == slots[a],
        forall|k: int|
            0 <= k < slots.len() && k != a && k != b ==> swapped_slots(slots, a, b)[k]
                == #[trigger] slots[k],
{
    let sw = swapped_slots(slots, a, b);
    assert forall|i: int, j: int|
        0 <= i < j < sw.len() && #[trigger] sw[i] is Some implies sw[i] != #[trigger] sw[j] by {
        let oi = if i == a {
            b
        } else if i == b {
            a
        } else {
            i
        };
        let oj = if j == a {
            b
        } else if j == b {
            a
        } else {
            j
        };
        assert(sw[i] == slots[oi]);
        assert(sw[j] == slots[oj]);
        assert(oi != oj);
        if oi < oj {
            assert(!(slots[oi] is Some && slots[oi] == slots[oj]));
        } else {
            assert(!(slots[oj] is Some && slots[oj] == slots[oi]));
        }
    }
}

} // verus!
