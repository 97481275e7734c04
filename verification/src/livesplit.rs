//! The boundary to the timing-domain library.
//!
//! Everything the verified code knows about the run editor, the shared timer
//! and the hotkey system is stated here: the outside types are declared
//! opaque, their observable content is given names, and each call the logic
//! makes goes through one small trusted wrapper whose contract says, over
//! those names, what the library's source shows.
use vstd::prelude::*;

use crate::TimerPhaseKind;

verus! {

// ---------------------------------------------------------------------------
// Outside types, declared so they can stand in signatures and fields.
// ---------------------------------------------------------------------------
#[verifier::external_type_specification]
#[verifier::external_body]
pub struct ExRunEditor(livesplit_core::RunEditor);

#[verifier::external_type_specification]
#[verifier::external_body]
pub struct ExRun(livesplit_core::Run);

#[verifier::external_type_specification]
#[verifier::external_body]
pub struct ExTimer(livesplit_core::Timer);

#[verifier::external_type_specification]
#[verifier::external_body]
#[verifier::reject_recursive_types(T)]
pub struct ExRwLock<T: ?Sized>(std::sync::RwLock<T>);

#[verifier::external_type_specification]
#[verifier::external_body]
pub struct ExHotkeySystem(livesplit_core::HotkeySystem);

#[verifier::external_type_specification]
#[verifier::external_body]
pub struct ExHotkeyConfig(livesplit_core::HotkeyConfig);

#[verifier::external_type_specification]
#[verifier::external_body]
pub struct ExHotkey(livesplit_core::hotkey::Hotkey);

// ---------------------------------------------------------------------------
// Names for what the outside values hold. The editor is a collection of
// segment rows; the names below stand for the formatted texts its state
// reports, row by row, and for its bookkeeping that the session logic needs.
// ---------------------------------------------------------------------------
/// The segment names of the editor's rows.
pub uninterp spec fn editor_names(e: livesplit_core::RunEditor) -> Seq<Seq<char>>;

/// The formatted split-time text of each of the editor's rows.
pub uninterp spec fn editor_splits(e: livesplit_core::RunEditor) -> Seq<Seq<char>>;

/// The formatted segment-time text of each of the editor's rows.
pub uninterp spec fn editor_seg_times(e: livesplit_core::RunEditor) -> Seq<Seq<char>>;

/// The formatted best-segment-time text of each of the editor's rows.
pub uninterp spec fn editor_bests(e: livesplit_core::RunEditor) -> Seq<Seq<char>>;

/// The formatted start-offset text of the editor.
pub uninterp spec fn editor_offset_text(e: livesplit_core::RunEditor) -> Seq<char>;

/// The game name held by the editor.
pub uninterp spec fn editor_game(e: livesplit_core::RunEditor) -> Seq<char>;

/// The category name held by the editor.
pub uninterp spec fn editor_category(e: livesplit_core::RunEditor) -> Seq<char>;

/// The attempt count held by the editor.
pub uninterp spec fn editor_attempts(e: livesplit_core::RunEditor) -> u32;

/// The index of the editor's active (most recently selected) row.
pub uninterp spec fn editor_active(e: livesplit_core::RunEditor) -> int;

/// Whether the active row is the only selected row.
pub uninterp spec fn editor_sel_single(e: livesplit_core::RunEditor) -> bool;

/// Whether the run being edited carries the "has been modified" mark.
pub uninterp spec fn editor_dirty(e: livesplit_core::RunEditor) -> bool;

/// Whether a run has no segments. Names the result of `Run::is_empty`.
pub uninterp spec fn run_is_empty(r: livesplit_core::Run) -> bool;

/// Whether a run carries the "has been modified" mark. Names the result of
/// `Run::has_been_modified`.
pub uninterp spec fn run_modified(r: livesplit_core::Run) -> bool;

/// Whether a string is accepted by the editor's time parser (the one behind
/// `parse_and_set_split_time` and its siblings): it parses as a time span
/// that is absent or not negative.
pub uninterp spec fn time_parses(s: Seq<char>) -> bool;

/// Whether a string is accepted by the offset parser behind
/// `RunEditor::parse_and_set_offset`.
pub uninterp spec fn offset_parses(s: Seq<char>) -> bool;

/// The nine bindings a hotkey configuration holds, in the fixed slot order
/// split, reset, undo, skip, pause, undo-all-pauses, previous-comparison,
/// next-comparison, toggle-timing-method.
pub uninterp spec fn config_slots(c: livesplit_core::HotkeyConfig) -> Seq<
    Option<livesplit_core::hotkey::Hotkey>,
>;

/// The nine bindings the live hotkey system currently holds, in slot order.
pub uninterp spec fn hks_slots(h: livesplit_core::HotkeySystem) -> Seq<
    Option<livesplit_core::hotkey::Hotkey>,
>;

/// Whether the live hotkey system is activated. Names the result of
/// `HotkeySystem::is_active`.
pub uninterp spec fn hks_active(h: livesplit_core::HotkeySystem) -> bool;

// ---------------------------------------------------------------------------
// A plain snapshot of the editor's state, as the session logic reads it.
// ---------------------------------------------------------------------------
/// The formatted texts of one segment row.
pub struct RowSnapshot {
    /// The segment's name.
    pub name: String,
    /// The formatted split time.
    pub split_time: String,
    /// The formatted segment time.
    pub segment_time: String,
    /// The formatted best segment time.
    pub best_segment_time: String,
}

/// The plain values the editor's state reports: the header fields, every
/// row's formatted texts, and which structural actions are available.
pub struct EditorSnapshot {
    /// The game name.
    pub game: String,
    /// The category name.
    pub category: String,
    /// The formatted start-offset text.
    pub offset: String,
    /// The attempt count.
    pub attempts: u32,
    /// The formatted texts of each row.
    pub rows: Vec<RowSnapshot>,
    /// Whether the selected rows may be removed.
    pub can_remove: bool,
    /// Whether the selected rows may move up.
    pub can_move_up: bool,
    /// Whether the selected rows may move down.
    pub can_move_down: bool,
}

// ---------------------------------------------------------------------------
// Run editor wrappers.
// ---------------------------------------------------------------------------
/// Relies on `RunEditor::new`: it fails exactly on a run with no segments,
/// and otherwise opens an editor on the run with row 0 as the only selected
/// row and with the run's modified mark unchanged.
#[verifier::external_body]
pub(crate) fn editor_new(run: livesplit_core::Run) -> (r: Option<livesplit_core::RunEditor>)
    ensures
        r is Some <==> !run_is_empty(run),
        r matches Some(ed) ==> {
            &&& editor_active(ed) == 0
            &&& editor_sel_single(ed)
            &&& editor_dirty(ed) == run_modified(run)
            &&& editor_splits(ed).len() >= 1
        },
{
    livesplit_core::RunEditor::new(run).ok()
}

/// Relies on `RunEditor::close`: it hands back the edited run, which the
/// editor kept non-empty, with the modified mark the editor tracked.
#[verifier::external_body]
pub(crate) fn editor_close(e: livesplit_core::RunEditor) -> (r: livesplit_core::Run)
    ensures
        !run_is_empty(r),
        run_modified(r) == editor_dirty(e),
{
    e.close()
}

/// Relies on `RunEditor::state`: the reported texts are exactly what the
/// names of this module stand for, and computing the state changes none of
/// them (it only refreshes icon caches).
#[verifier::external_body]
pub(crate) fn editor_snapshot(e: &mut livesplit_core::RunEditor) -> (r: EditorSnapshot)
    ensures
        editor_names(*final(e)) == editor_names(*old(e)),
        editor_splits(*final(e)) == editor_splits(*old(e)),
        editor_seg_times(*final(e)) == editor_seg_times(*old(e)),
        editor_bests(*final(e)) == editor_bests(*old(e)),
        editor_offset_text(*final(e)) == editor_offset_text(*old(e)),
        editor_game(*final(e)) == editor_game(*old(e)),
        editor_category(*final(e)) == editor_category(*old(e)),
        editor_attempts(*final(e)) == editor_attempts(*old(e)),
        editor_active(*final(e)) == editor_active(*old(e)),
        editor_sel_single(*final(e)) == editor_sel_single(*old(e)),
        editor_dirty(*final(e)) == editor_dirty(*old(e)),
        r.rows@.map_values(|row: RowSnapshot| row.name@) == editor_names(*old(e)),
        r.rows@.map_values(|row: RowSnapshot| row.split_time@) == editor_splits(*old(e)),
        r.rows@.map_values(|row: RowSnapshot| row.segment_time@) == editor_seg_times(*old(e)),
        r.rows@.map_values(|row: RowSnapshot| row.best_segment_time@) == editor_bests(*old(e)),
        r.offset@ == editor_offset_text(*old(e)),
        r.game@ == editor_game(*old(e)),
        r.category@ == editor_category(*old(e)),
        r.attempts == editor_attempts(*old(e)),
        editor_sel_single(*old(e)) ==> {
            &&& r.can_remove <==> r.rows@.len() > 1
            &&& r.can_move_up <==> editor_active(*old(e)) != 0
            &&& r.can_move_down <==> editor_active(*old(e)) + 1 != r.rows@.len()
        },
{
    let st = e.state();
    let rows = st.segments.into_iter().map(|s| RowSnapshot {
        name: s.name, split_time: s.split_time,
        segment_time: s.segment_time, best_segment_time: s.best_segment_time,
    }).collect();
    EditorSnapshot {
        game: st.game, category: st.category, offset: st.offset, attempts: st.attempts,
        rows,
        can_remove: st.buttons.can_remove,
        can_move_up: st.buttons.can_move_up,
        can_move_down: st.buttons.can_move_down,
    }
}

/// Relies on `RunEditor::select_only`: the given row becomes the only
/// selected and hence active row; nothing the state reports as text changes.
#[verifier::external_body]
pub(crate) fn editor_select_only(e: &mut livesplit_core::RunEditor, index: usize)
    requires
        0 <= index < editor_splits(*old(e)).len(),
    ensures
        editor_names(*final(e)) == editor_names(*old(e)),
        editor_splits(*final(e)) == editor_splits(*old(e)),
        editor_seg_times(*final(e)) == editor_seg_times(*old(e)),
        editor_bests(*final(e)) == editor_bests(*old(e)),
        editor_offset_text(*final(e)) == editor_offset_text(*old(e)),
        editor_game(*final(e)) == editor_game(*old(e)),
        editor_category(*final(e)) == editor_category(*old(e)),
        editor_attempts(*final(e)) == editor_attempts(*old(e)),
        editor_dirty(*final(e)) == editor_dirty(*old(e)),
        editor_active(*final(e)) == index,
        editor_sel_single(*final(e)),
{
    e.select_only(index)
}

/// Relies on `RunEditor::insert_segment_above`: one blank-named row is
/// inserted at the active position, which stays the active and only selected
/// row; the other rows keep their names (their time texts are recomputed)
/// and the run is marked modified.
#[verifier::external_body]
pub(crate) fn editor_insert_above(e: &mut livesplit_core::RunEditor)
    requires
        0 <= editor_active(*old(e)) < editor_splits(*old(e)).len(),
    ensures
        editor_names(*final(e)) == editor_names(*old(e)).insert(
            editor_active(*old(e)),
            Seq::<char>::empty(),
        ),
        editor_names(*final(e)).len() == editor_names(*old(e)).len() + 1,
        editor_splits(*final(e)).len() == editor_splits(*old(e)).len() + 1,
        editor_seg_times(*final(e)).len() == editor_seg_times(*old(e)).len() + 1,
        editor_bests(*final(e)).len() == editor_bests(*old(e)).len() + 1,
        editor_game(*final(e)) == editor_game(*old(e)),
        editor_category(*final(e)) == editor_category(*old(e)),
        editor_attempts(*final(e)) == editor_attempts(*old(e)),
        editor_offset_text(*final(e)) == editor_offset_text(*old(e)),
        editor_active(*final(e)) == editor_active(*old(e)),
        editor_sel_single(*final(e)),
        editor_dirty(*final(e)),
{
    e.insert_segment_above()
}

/// Relies on `RunEditor::insert_segment_below`: one blank-named row is
/// inserted after the active position and becomes the active and only
/// selected row; the other rows keep their names (their time texts are
/// recomputed) and the run is marked modified.
#[verifier::external_body]
pub(crate) fn editor_insert_below(e: &mut livesplit_core::RunEditor)
    requires
        0 <= editor_active(*old(e)) < editor_splits(*old(e)).len(),
    ensures
        editor_names(*final(e)) == editor_names(*old(e)).insert(
            editor_active(*old(e)) + 1,
            Seq::<char>::empty(),
        ),
        editor_names(*final(e)).len() == editor_names(*old(e)).len() + 1,
        editor_splits(*final(e)).len() == editor_splits(*old(e)).len() + 1,
        editor_seg_times(*final(e)).len() == editor_seg_times(*old(e)).len() + 1,
        editor_bests(*final(e)).len() == editor_bests(*old(e)).len() + 1,
        editor_game(*final(e)) == editor_game(*old(e)),
        editor_category(*final(e)) == editor_category(*old(e)),
        editor_attempts(*final(e)) == editor_attempts(*old(e)),
        editor_offset_text(*final(e)) == editor_offset_text(*old(e)),
        editor_active(*final(e)) == editor_active(*old(e)) + 1,
        editor_sel_single(*final(e)),
        editor_dirty(*final(e)),
{
    e.insert_segment_below()
}

/// Relies on `RunEditor::remove_segments`: with a single selected row it is a
/// no-op when that row is the only one, and otherwise removes exactly that
/// row — the other rows keep their names (their time texts are recomputed) —
/// selects the row now at its index (or the last row) and marks the run
/// modified.
#[verifier::external_body]
pub(crate) fn editor_remove_selected(e: &mut livesplit_core::RunEditor)
    requires
        editor_sel_single(*old(e)),
        0 <= editor_active(*old(e)) < editor_splits(*old(e)).len(),
    ensures
        editor_game(*final(e)) == editor_game(*old(e)),
        editor_category(*final(e)) == editor_category(*old(e)),
        editor_attempts(*final(e)) == editor_attempts(*old(e)),
        editor_offset_text(*final(e)) == editor_offset_text(*old(e)),
        editor_sel_single(*final(e)),
        editor_splits(*old(e)).len() == 1 ==> {
            &&& editor_names(*final(e)) == editor_names(*old(e))
            &&& editor_splits(*final(e)) == editor_splits(*old(e))
            &&& editor_seg_times(*final(e)) == editor_seg_times(*old(e))
            &&& editor_bests(*final(e)) == editor_bests(*old(e))
            &&& editor_active(*final(e)) == editor_active(*old(e))
            &&& editor_dirty(*final(e)) == editor_dirty(*old(e))
        },
        editor_splits(*old(e)).len() > 1 ==> {
            &&& editor_names(*final(e)) == editor_names(*old(e)).remove(editor_active(*old(e)))
            &&& editor_names(*final(e)).len() == editor_names(*old(e)).len() - 1
            &&& editor_splits(*final(e)).len() == editor_splits(*old(e)).len() - 1
            &&& editor_seg_times(*final(e)).len() == editor_seg_times(*old(e)).len() - 1
            &&& editor_bests(*final(e)).len() == editor_bests(*old(e)).len() - 1
            &&& editor_active(*final(e)) == if editor_active(*old(e))
                < editor_splits(*old(e)).len() - 1 {
                editor_active(*old(e))
            } else {
                editor_splits(*old(e)).len() - 2
            }
            &&& editor_dirty(*final(e))
        },
{
    e.remove_segments()
}

/// Relies on `RunEditor::move_segments_up`: with a single selected row it is
/// a no-op on the first row, and otherwise swaps the active row with the one
/// above — exchanging the two rows' names, while the time texts are
/// recomputed for the new order — keeps it selected at its new index and
/// marks the run modified.
#[verifier::external_body]
pub(crate) fn editor_move_up(e: &mut livesplit_core::RunEditor)
    requires
        editor_sel_single(*old(e)),
        0 <= editor_active(*old(e)) < editor_splits(*old(e)).len(),
    ensures
        editor_names(*final(e)).len() == editor_names(*old(e)).len(),
        editor_splits(*final(e)).len() == editor_splits(*old(e)).len(),
        editor_seg_times(*final(e)).len() == editor_seg_times(*old(e)).len(),
        editor_bests(*final(e)).len() == editor_bests(*old(e)).len(),
        editor_game(*final(e)) == editor_game(*old(e)),
        editor_category(*final(e)) == editor_category(*old(e)),
        editor_attempts(*final(e)) == editor_attempts(*old(e)),
        editor_offset_text(*final(e)) == editor_offset_text(*old(e)),
        editor_sel_single(*final(e)),
        editor_active(*old(e)) == 0 ==> {
            &&& editor_names(*final(e)) == editor_names(*old(e))
            &&& editor_splits(*final(e)) == editor_splits(*old(e))
            &&& editor_seg_times(*final(e)) == editor_seg_times(*old(e))
            &&& editor_bests(*final(e)) == editor_bests(*old(e))
            &&& editor_active(*final(e)) == 0
            &&& editor_dirty(*final(e)) == editor_dirty(*old(e))
        },
        editor_active(*old(e)) != 0 ==> {
            &&& editor_names(*final(e)) == editor_names(*old(e)).update(
                editor_active(*old(e)) - 1,
                editor_names(*old(e))[editor_active(*old(e))],
            ).update(editor_active(*old(e)), editor_names(*old(e))[editor_active(*old(e)) - 1])
            &&& editor_active(*final(e)) == editor_active(*old(e)) - 1
            &&& editor_dirty(*final(e))
        },
{
    e.move_segments_up()
}

/// Relies on `RunEditor::move_segments_down`: with a single selected row it
/// is a no-op on the last row, and otherwise swaps the active row with the
/// one below — exchanging the two rows' names, while the time texts are
/// recomputed for the new order — keeps it selected at its new index and
/// marks the run modified.
#[verifier::external_body]
pub(crate) fn editor_move_down(e: &mut livesplit_core::RunEditor)
    requires
        editor_sel_single(*old(e)),
        0 <= editor_active(*old(e)) < editor_splits(*old(e)).len(),
    ensures
        editor_names(*final(e)).len() == editor_names(*old(e)).len(),
        editor_splits(*final(e)).len() == editor_splits(*old(e)).len(),
        editor_seg_times(*final(e)).len() == editor_seg_times(*old(e)).len(),
        editor_bests(*final(e)).len() == editor_bests(*old(e)).len(),
        editor_game(*final(e)) == editor_game(*old(e)),
        editor_category(*final(e)) == editor_category(*old(e)),
        editor_attempts(*final(e)) == editor_attempts(*old(e)),
        editor_offset_text(*final(e)) == editor_offset_text(*old(e)),
        editor_sel_single(*final(e)),
        editor_active(*old(e)) + 1 == editor_splits(*old(e)).len() ==> {
            &&& editor_names(*final(e)) == editor_names(*old(e))
            &&& editor_splits(*final(e)) == editor_splits(*old(e))
            &&& editor_seg_times(*final(e)) == editor_seg_times(*old(e))
            &&& editor_bests(*final(e)) == editor_bests(*old(e))
            &&& editor_active(*final(e)) == editor_active(*old(e))
            &&& editor_dirty(*final(e)) == editor_dirty(*old(e))
        },
        editor_active(*old(e)) + 1 < editor_splits(*old(e)).len() ==> {
            &&& editor_names(*final(e)) == editor_names(*old(e)).update(
                editor_active(*old(e)),
                editor_names(*old(e))[editor_active(*old(e)) + 1],
            ).update(editor_active(*old(e)) + 1, editor_names(*old(e))[editor_active(*old(e))])
            &&& editor_active(*final(e)) == editor_active(*old(e)) + 1
            &&& editor_dirty(*final(e))
        },
{
    e.move_segments_down()
}

/// Relies on `SegmentRow::set_name` on the active segment: exactly the
/// active row's name is replaced and the run is marked modified.
#[verifier::external_body]
pub(crate) fn editor_set_segment_name(e: &mut livesplit_core::RunEditor, name: &str)
    requires
        0 <= editor_active(*old(e)) < editor_splits(*old(e)).len(),
    ensures
        editor_names(*final(e)) == editor_names(*old(e)).update(editor_active(*old(e)), name@),
        editor_splits(*final(e)) == editor_splits(*old(e)),
        editor_seg_times(*final(e)) == editor_seg_times(*old(e)),
        editor_bests(*final(e)) == editor_bests(*old(e)),
        editor_game(*final(e)) == editor_game(*old(e)),
        editor_category(*final(e)) == editor_category(*old(e)),
        editor_attempts(*final(e)) == editor_attempts(*old(e)),
        editor_offset_text(*final(e)) == editor_offset_text(*old(e)),
        editor_active(*final(e)) == editor_active(*old(e)),
        editor_sel_single(*final(e)) == editor_sel_single(*old(e)),
        editor_dirty(*final(e)),
{
    e.active_segment().set_name(name)
}

/// Relies on `SegmentRow::parse_and_set_split_time` on the active segment:
/// it fails exactly when the text is not accepted by the time parser, in
/// which case nothing changes; on success the row count, the header fields
/// and the selection are kept while the time texts are recomputed.
#[verifier::external_body]
pub(crate) fn editor_parse_set_split(e: &mut livesplit_core::RunEditor, text: &str) -> (r: bool)
    requires
        0 <= editor_active(*old(e)) < editor_splits(*old(e)).len(),
    ensures
        r == time_parses(text@),
        !r ==> {
            &&& editor_names(*final(e)) == editor_names(*old(e))
            &&& editor_splits(*final(e)) == editor_splits(*old(e))
            &&& editor_seg_times(*final(e)) == editor_seg_times(*old(e))
            &&& editor_bests(*final(e)) == editor_bests(*old(e))
            &&& editor_offset_text(*final(e)) == editor_offset_text(*old(e))
            &&& editor_dirty(*final(e)) == editor_dirty(*old(e))
        },
        r ==> {
            &&& editor_names(*final(e)) == editor_names(*old(e))
            &&& editor_splits(*final(e)).len() == editor_splits(*old(e)).len()
            &&& editor_seg_times(*final(e)).len() == editor_seg_times(*old(e)).len()
            &&& editor_bests(*final(e)).len() == editor_bests(*old(e)).len()
            &&& editor_offset_text(*final(e)) == editor_offset_text(*old(e))
            &&& editor_dirty(*final(e))
        },
        editor_game(*final(e)) == editor_game(*old(e)),
        editor_category(*final(e)) == editor_category(*old(e)),
        editor_attempts(*final(e)) == editor_attempts(*old(e)),
        editor_active(*final(e)) == editor_active(*old(e)),
        editor_sel_single(*final(e)) == editor_sel_single(*old(e)),
{
    e.active_segment().parse_and_set_split_time(text).is_ok()
}

/// Relies on `SegmentRow::parse_and_set_segment_time` on the active segment,
/// with the same failure rule and the same preserved facts as the split-time
/// setter.
#[verifier::external_body]
pub(crate) fn editor_parse_set_segment(e: &mut livesplit_core::RunEditor, text: &str) -> (r: bool)
    requires
        0 <= editor_active(*old(e)) < editor_splits(*old(e)).len(),
    ensures
        r == time_parses(text@),
        !r ==> {
            &&& editor_names(*final(e)) == editor_names(*old(e))
            &&& editor_splits(*final(e)) == editor_splits(*old(e))
            &&& editor_seg_times(*final(e)) == editor_seg_times(*old(e))
            &&& editor_bests(*final(e)) == editor_bests(*old(e))
            &&& editor_offset_text(*final(e)) == editor_offset_text(*old(e))
            &&& editor_dirty(*final(e)) == editor_dirty(*old(e))
        },
        r ==> {
            &&& editor_names(*final(e)) == editor_names(*old(e))
            &&& editor_splits(*final(e)).len() == editor_splits(*old(e)).len()
            &&& editor_seg_times(*final(e)).len() == editor_seg_times(*old(e)).len()
            &&& editor_bests(*final(e)).len() == editor_bests(*old(e)).len()
            &&& editor_offset_text(*final(e)) == editor_offset_text(*old(e))
            &&& editor_dirty(*final(e))
        },
        editor_game(*final(e)) == editor_game(*old(e)),
        editor_category(*final(e)) == editor_category(*old(e)),
        editor_attempts(*final(e)) == editor_attempts(*old(e)),
        editor_active(*final(e)) == editor_active(*old(e)),
        editor_sel_single(*final(e)) == editor_sel_single(*old(e)),
{
    e.active_segment().parse_and_set_segment_time(text).is_ok()
}

/// Relies on `SegmentRow::parse_and_set_best_segment_time` on the active
/// segment, with the same failure rule and the same preserved facts as the
/// split-time setter.
#[verifier::external_body]
pub(crate) fn editor_parse_set_best(e: &mut livesplit_core::RunEditor, text: &str) -> (r: bool)
    requires
        0 <= editor_active(*old(e)) < editor_splits(*old(e)).len(),
    ensures
        r == time_parses(text@),
        !r ==> {
            &&& editor_names(*final(e)) == editor_names(*old(e))
            &&& editor_splits(*final(e)) == editor_splits(*old(e))
            &&& editor_seg_times(*final(e)) == editor_seg_times(*old(e))
            &&& editor_bests(*final(e)) == editor_bests(*old(e))
            &&& editor_offset_text(*final(e)) == editor_offset_text(*old(e))
            &&& editor_dirty(*final(e)) == editor_dirty(*old(e))
        },
        r ==> {
            &&& editor_names(*final(e)) == editor_names(*old(e))
            &&& editor_splits(*final(e)).len() == editor_splits(*old(e)).len()
            &&& editor_seg_times(*final(e)).len() == editor_seg_times(*old(e)).len()
            &&& editor_bests(*final(e)).len() == editor_bests(*old(e)).len()
            &&& editor_offset_text(*final(e)) == editor_offset_text(*old(e))
            &&& editor_dirty(*final(e))
        },
        editor_game(*final(e)) == editor_game(*old(e)),
        editor_category(*final(e)) == editor_category(*old(e)),
        editor_attempts(*final(e)) == editor_attempts(*old(e)),
        editor_active(*final(e)) == editor_active(*old(e)),
        editor_sel_single(*final(e)) == editor_sel_single(*old(e)),
{
    e.active_segment().parse_and_set_best_segment_time(text).is_ok()
}

/// Relies on `RunEditor::parse_and_set_offset`: it fails exactly when the
/// text is not accepted by the offset parser, in which case nothing changes;
/// on success only the offset and the modified mark change.
#[verifier::external_body]
pub(crate) fn editor_parse_set_offset(e: &mut livesplit_core::RunEditor, text: &str) -> (r: bool)
    ensures
        r == offset_parses(text@),
        editor_names(*final(e)) == editor_names(*old(e)),
        editor_splits(*final(e)) == editor_splits(*old(e)),
        editor_seg_times(*final(e)) == editor_seg_times(*old(e)),
        editor_bests(*final(e)) == editor_bests(*old(e)),
        editor_game(*final(e)) == editor_game(*old(e)),
        editor_category(*final(e)) == editor_category(*old(e)),
        editor_attempts(*final(e)) == editor_attempts(*old(e)),
        editor_active(*final(e)) == editor_active(*old(e)),
        editor_sel_single(*final(e)) == editor_sel_single(*old(e)),
        !r ==> editor_offset_text(*final(e)) == editor_offset_text(*old(e)),
        !r ==> editor_dirty(*final(e)) == editor_dirty(*old(e)),
        r ==> editor_dirty(*final(e)),
{
    e.parse_and_set_offset(text).is_ok()
}

/// Relies on `RunEditor::set_attempt_count`: only the attempt count and the
/// modified mark change.
#[verifier::external_body]
pub(crate) fn editor_set_attempts(e: &mut livesplit_core::RunEditor, attempts: u32)
    ensures
        editor_attempts(*final(e)) == attempts,
        editor_names(*final(e)) == editor_names(*old(e)),
        editor_splits(*final(e)) == editor_splits(*old(e)),
        editor_seg_times(*final(e)) == editor_seg_times(*old(e)),
        editor_bests(*final(e)) == editor_bests(*old(e)),
        editor_offset_text(*final(e)) == editor_offset_text(*old(e)),
        editor_game(*final(e)) == editor_game(*old(e)),
        editor_category(*final(e)) == editor_category(*old(e)),
        editor_active(*final(e)) == editor_active(*old(e)),
        editor_sel_single(*final(e)) == editor_sel_single(*old(e)),
        editor_dirty(*final(e)),
{
    e.set_attempt_count(attempts)
}

/// Relies on `RunEditor::set_game_name`: only the game name and the modified
/// mark change.
#[verifier::external_body]
pub(crate) fn editor_set_game(e: &mut livesplit_core::RunEditor, name: &str)
    ensures
        editor_game(*final(e)) == name@,
        editor_names(*final(e)) == editor_names(*old(e)),
        editor_splits(*final(e)) == editor_splits(*old(e)),
        editor_seg_times(*final(e)) == editor_seg_times(*old(e)),
        editor_bests(*final(e)) == editor_bests(*old(e)),
        editor_offset_text(*final(e)) == editor_offset_text(*old(e)),
        editor_category(*final(e)) == editor_category(*old(e)),
        editor_attempts(*final(e)) == editor_attempts(*old(e)),
        editor_active(*final(e)) == editor_active(*old(e)),
        editor_sel_single(*final(e)) == editor_sel_single(*old(e)),
        editor_dirty(*final(e)),
{
    e.set_game_name(name)
}

/// Relies on `RunEditor::set_category_name`: only the category name and the
/// modified mark change.
#[verifier::external_body]
pub(crate) fn editor_set_category(e: &mut livesplit_core::RunEditor, name: &str)
    ensures
        editor_category(*final(e)) == name@,
        editor_names(*final(e)) == editor_names(*old(e)),
        editor_splits(*final(e)) == editor_splits(*old(e)),
        editor_seg_times(*final(e)) == editor_seg_times(*old(e)),
        editor_bests(*final(e)) == editor_bests(*old(e)),
        editor_offset_text(*final(e)) == editor_offset_text(*old(e)),
        editor_game(*final(e)) == editor_game(*old(e)),
        editor_attempts(*final(e)) == editor_attempts(*old(e)),
        editor_active(*final(e)) == editor_active(*old(e)),
        editor_sel_single(*final(e)) == editor_sel_single(*old(e)),
        editor_dirty(*final(e)),
{
    e.set_category_name(name)
}

// ---------------------------------------------------------------------------
// Shared timer wrappers. The timer is shared with the hotkey listener thread
// behind a reader/writer lock, so no two reads are related: the contracts
// state only what holds of every outcome. A poisoned lock is a fatal fault by
// design; these calls do not return then.
// ---------------------------------------------------------------------------
/// Relies on `Run::has_been_modified` read under the lock: the result is the
/// modified mark at the moment of the read.
#[verifier::external_body]
pub(crate) fn shared_timer_is_dirty(timer: &livesplit_core::SharedTimer) -> bool {
    timer.read().expect("timer lock poisoned").run().has_been_modified()
}

/// Relies on `Timer::current_phase` read under the lock: the result is the
/// phase at the moment of the read, mapped one variant to one.
#[verifier::external_body]
pub(crate) fn shared_timer_phase(timer: &livesplit_core::SharedTimer) -> TimerPhaseKind {
    match timer.read().expect("timer lock poisoned").current_phase() {
        livesplit_core::TimerPhase::NotRunning => TimerPhaseKind::NotRunning,
        livesplit_core::TimerPhase::Running => TimerPhaseKind::Running,
        livesplit_core::TimerPhase::Ended => TimerPhaseKind::Ended,
        livesplit_core::TimerPhase::Paused => TimerPhaseKind::Paused,
    }
}

/// Relies on `Timer::run` read under the lock: a copy of the run the timer
/// holds, which the timer keeps non-empty.
#[verifier::external_body]
pub(crate) fn shared_timer_run_copy(timer: &livesplit_core::SharedTimer) -> (r:
    livesplit_core::Run)
    ensures
        !run_is_empty(r),
{
    timer.read().expect("timer lock poisoned").run().clone()
}

/// Relies on `Timer::replace_run` under the lock: it is rejected exactly for
/// a run with no segments.
#[verifier::external_body]
pub(crate) fn shared_timer_replace_run(
    timer: &livesplit_core::SharedTimer,
    run: livesplit_core::Run,
    update_splits: bool,
) -> (r: bool)
    ensures
        r == !run_is_empty(run),
{
    timer.write().expect("timer lock poisoned").replace_run(run, update_splits).is_ok()
}

/// Whether a byte sequence parses as splits in one of the formats the timing
/// library knows, with no auxiliary files loaded: with the file-loading path
/// fixed to none, success is a function of the bytes alone.
pub uninterp spec fn run_parses(data: Seq<u8>) -> bool;

/// Whether the run parsed from a byte sequence has no segments — the one
/// shape of parsed run the timer rejects. A second name about the same
/// parse, so that callers can say when a load is owed to succeed.
pub uninterp spec fn parsed_run_empty(data: Seq<u8>) -> bool;

/// Relies on `composite::parse_and_fix` with no file-loading path: it accepts
/// exactly the byte sequences the splits parsers recognize, and the parsed
/// run is a function of the bytes.
#[verifier::external_body]
pub(crate) fn parse_run_bytes(data: &[u8]) -> (r: Option<livesplit_core::Run>)
    ensures
        r is Some <==> run_parses(data@),
        r matches Some(run) ==> run_is_empty(run) == parsed_run_empty(data@),
{
    livesplit_core::run::parser::composite::parse_and_fix(data, None).ok().map(|p| p.run)
}

/// Relies on `Timer::mark_as_unmodified` and `saver::livesplit::save_timer`
/// under one lock acquisition, so marking and serializing are one
/// transaction: the canonical run is marked saved and its document returned,
/// or nothing if formatting it failed.
#[verifier::external_body]
pub(crate) fn shared_timer_serialize_marking_saved(timer: &livesplit_core::SharedTimer) -> Option<
    String,
> {
    let mut guard = timer.write().expect("timer lock poisoned");
    guard.mark_as_unmodified();
    let mut out = String::new();
    match livesplit_core::run::saver::livesplit::save_timer(&guard, &mut out) {
        Ok(()) => Some(out),
        Err(_) => None,
    }
}

// ---------------------------------------------------------------------------
// Hotkey system wrappers.
// ---------------------------------------------------------------------------
/// Relies on `HotkeySystem::config`: the configuration the system holds.
#[verifier::external_body]
pub(crate) fn hks_config(h: &livesplit_core::HotkeySystem) -> (r: livesplit_core::HotkeyConfig)
    ensures
        config_slots(r) == hks_slots(*h),
{
    h.config()
}

/// Reads the nine binding slots out of a `HotkeyConfig`, in slot order.
#[verifier::external_body]
pub(crate) fn slots_of_config(c: &livesplit_core::HotkeyConfig) -> (r: Vec<
    Option<livesplit_core::hotkey::Hotkey>,
>)
    ensures
        r@ == config_slots(*c),
        r@.len() == 9,
{
    vec![
        c.split, c.reset, c.undo, c.skip, c.pause, c.undo_all_pauses,
        c.previous_comparison, c.next_comparison, c.toggle_timing_method,
    ]
}

/// Builds a `HotkeyConfig` from nine binding slots, in slot order.
#[verifier::external_body]
pub(crate) fn config_of_slots(v: &Vec<Option<livesplit_core::hotkey::Hotkey>>) -> (r:
    livesplit_core::HotkeyConfig)
    requires
        v@.len() == 9,
    ensures
        config_slots(r) == v@,
{
    livesplit_core::HotkeyConfig {
        split: v[0], reset: v[1], undo: v[2], skip: v[3], pause: v[4],
        undo_all_pauses: v[5], previous_comparison: v[6], next_comparison: v[7],
        toggle_timing_method: v[8],
    }
}

/// Relies on `HotkeySystem::set_config`: on success the system holds exactly
/// the given configuration; whether the system is activated never changes;
/// and while the system is deactivated the call only stores the
/// configuration and cannot fail, since every hook operation is guarded by
/// the activation flag.
#[verifier::external_body]
pub(crate) fn hks_set_config(
    h: &mut livesplit_core::HotkeySystem,
    c: livesplit_core::HotkeyConfig,
) -> (r: bool)
    ensures
        hks_active(*final(h)) == hks_active(*old(h)),
        r ==> hks_slots(*final(h)) == config_slots(c),
        !hks_active(*old(h)) ==> r,
{
    h.set_config(c).is_ok()
}

/// Relies on `HotkeySystem::activate`: the configuration is untouched; on
/// success the system is active; on failure the activation flag is left as
/// it was; an already active system activates trivially.
#[verifier::external_body]
pub(crate) fn hks_activate(h: &mut livesplit_core::HotkeySystem) -> (r: bool)
    ensures
        hks_slots(*final(h)) == hks_slots(*old(h)),
        r ==> hks_active(*final(h)),
        !r ==> hks_active(*final(h)) == hks_active(*old(h)),
        hks_active(*old(h)) ==> r,
{
    h.activate().is_ok()
}

/// Relies on `HotkeySystem::deactivate`: the configuration is untouched; on
/// success the system is inactive; on failure the activation flag is left as
/// it was; an already inactive system deactivates trivially.
#[verifier::external_body]
pub(crate) fn hks_deactivate(h: &mut livesplit_core::HotkeySystem) -> (r: bool)
    ensures
        hks_slots(*final(h)) == hks_slots(*old(h)),
        r ==> !hks_active(*final(h)),
        !r ==> hks_active(*final(h)) == hks_active(*old(h)),
        !hks_active(*old(h)) ==> r,
{
    h.deactivate().is_ok()
}

} // verus!
