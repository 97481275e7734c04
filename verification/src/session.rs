//! The editing session and its row buffers.
//!
//! A session owns a working editor opened on a copy of the canonical run,
//! plus one editable text buffer per row and time column and one for the
//! start offset. Every structural mutation is followed by a resynchronization
//! within the same call, so from the caller's point of view the buffers
//! always match the canonical formatted texts except inside the well-defined
//! pending-edit window of the field being typed in. Closing the session
//! finalizes the pending offset edit and commits the edited run back to the
//! shared timer without ever marking an untouched run as modified.
use vstd::prelude::*;

use crate::livesplit::{
    editor_close, editor_insert_above, editor_insert_below, editor_move_down, editor_move_up,
    editor_new, editor_parse_set_best, editor_parse_set_offset, editor_parse_set_segment,
    editor_parse_set_split, editor_remove_selected, editor_select_only, editor_set_attempts,
    editor_set_category, editor_set_game, editor_set_segment_name, editor_snapshot, editor_active,
    editor_attempts, editor_bests, editor_category, editor_dirty, editor_game, editor_names,
    editor_offset_text, editor_seg_times, editor_sel_single, editor_splits, offset_parses,
    run_is_empty, run_modified, shared_timer_replace_run, shared_timer_run_copy, time_parses,
};
use crate::numbers::parse_attempt_count;

verus! {

/// The views of a vector of strings.
pub open spec fn strings_view(v: Seq<String>) -> Seq<Seq<char>> {
    v.map_values(|s: String| s@)
}

/// The mathematical state of a session: the canonical formatted texts the
/// editor reports, the editable buffers, the active row, and whether the
/// working run carries the modified mark.
pub ghost struct SessionView {
    /// The canonical segment names, row by row.
    pub names: Seq<Seq<char>>,
    /// The canonical formatted split times, row by row.
    pub splits: Seq<Seq<char>>,
    /// The canonical formatted segment times, row by row.
    pub seg_times: Seq<Seq<char>>,
    /// The canonical formatted best segment times, row by row.
    pub bests: Seq<Seq<char>>,
    /// The canonical formatted start offset.
    pub offset_text: Seq<char>,
    /// The game name.
    pub game: Seq<char>,
    /// The category name.
    pub category: Seq<char>,
    /// The attempt count.
    pub attempts: u32,
    /// The active (most recently selected) row.
    pub active: int,
    /// Whether the working run carries the "has been modified" mark.
    pub dirty: bool,
    /// The editable split-time buffers, row by row.
    pub split_bufs: Seq<Seq<char>>,
    /// The editable segment-time buffers, row by row.
    pub seg_bufs: Seq<Seq<char>>,
    /// The editable best-segment-time buffers, row by row.
    pub best_bufs: Seq<Seq<char>>,
    /// The editable offset buffer.
    pub offset_buf: Seq<char>,
}

impl SessionView {
    /// The number of rows of the session.
    pub open spec fn rows(self) -> nat {
        self.splits.len()
    }

    /// Well-formedness: exactly one buffer per row and column, and an active
    /// row that exists. This holds after every operation of the session.
    pub open spec fn wf(self) -> bool {
        &&& self.names.len() == self.splits.len()
        &&& self.seg_times.len() == self.splits.len()
        &&& self.bests.len() == self.splits.len()
        &&& self.split_bufs.len() == self.splits.len()
        &&& self.seg_bufs.len() == self.splits.len()
        &&& self.best_bufs.len() == self.splits.len()
        &&& 0 <= self.active < self.splits.len()
    }

    /// The buffers hold exactly the canonical formatted texts. This holds
    /// after every structural mutation and after every blur; typing opens
    /// the pending-edit window that blurring closes again.
    pub open spec fn in_sync(self) -> bool {
        &&& self.split_bufs == self.splits
        &&& self.seg_bufs == self.seg_times
        &&& self.best_bufs == self.bests
    }
}

/// What a keystroke in any time field does besides replacing the one typed
/// buffer: the text is optimistically applied to the active row, so a text
/// the time parser rejects changes nothing else, while an accepted one keeps
/// the rows and selection but recomputes the time texts and marks the run
/// modified.
pub open spec fn time_typing_post(pre: SessionView, post: SessionView, parse_ok: bool) -> bool {
    &&& post.names == pre.names
    &&& post.splits.len() == pre.splits.len()
    &&& post.seg_times.len() == pre.seg_times.len()
    &&& post.bests.len() == pre.bests.len()
    &&& post.offset_text == pre.offset_text
    &&& post.game == pre.game
    &&& post.category == pre.category
    &&& post.attempts == pre.attempts
    &&& post.active == pre.active
    &&& post.offset_buf == pre.offset_buf
    &&& !parse_ok ==> (post.splits == pre.splits && post.seg_times == pre.seg_times && post.bests
        == pre.bests && post.dirty == pre.dirty)
    &&& parse_ok ==> post.dirty
}

/// A keystroke in the split-time field of row `index`: that buffer holds the
/// typed text, the other buffers are untouched, and the optimistic-typing
/// rule applies.
pub open spec fn split_time_typed(
    pre: SessionView,
    post: SessionView,
    text: Seq<char>,
    index: int,
) -> bool {
    &&& time_typing_post(pre, post, time_parses(text))
    &&& post.split_bufs == pre.split_bufs.update(index, text)
    &&& post.seg_bufs == pre.seg_bufs
    &&& post.best_bufs == pre.best_bufs
}

/// A keystroke in the segment-time field of row `index`; see
/// [`split_time_typed`].
pub open spec fn segment_time_typed(
    pre: SessionView,
    post: SessionView,
    text: Seq<char>,
    index: int,
) -> bool {
    &&& time_typing_post(pre, post, time_parses(text))
    &&& post.seg_bufs == pre.seg_bufs.update(index, text)
    &&& post.split_bufs == pre.split_bufs
    &&& post.best_bufs == pre.best_bufs
}

/// A keystroke in the best-segment-time field of row `index`; see
/// [`split_time_typed`].
pub open spec fn best_time_typed(
    pre: SessionView,
    post: SessionView,
    text: Seq<char>,
    index: int,
) -> bool {
    &&& time_typing_post(pre, post, time_parses(text))
    &&& post.best_bufs == pre.best_bufs.update(index, text)
    &&& post.split_bufs == pre.split_bufs
    &&& post.seg_bufs == pre.seg_bufs
}

/// A full resynchronization: every buffer equals its canonical text again —
/// in particular a buffer holding rejected typed text is silently restored —
/// and nothing else changes.
pub open spec fn resynced(pre: SessionView, post: SessionView) -> bool {
    &&& post.in_sync()
    &&& post.names == pre.names
    &&& post.splits == pre.splits
    &&& post.seg_times == pre.seg_times
    &&& post.bests == pre.bests
    &&& post.offset_text == pre.offset_text
    &&& post.game == pre.game
    &&& post.category == pre.category
    &&& post.attempts == pre.attempts
    &&& post.active == pre.active
    &&& post.dirty == pre.dirty
    &&& post.offset_buf == pre.offset_buf
}

/// A resynchronization of row `index` alone: its three buffers equal the
/// canonical texts of that row, every other buffer keeps its text, and
/// nothing else changes.
pub open spec fn row_resynced(pre: SessionView, post: SessionView, index: int) -> bool {
    &&& post.split_bufs == pre.split_bufs.update(index, post.splits[index])
    &&& post.seg_bufs == pre.seg_bufs.update(index, post.seg_times[index])
    &&& post.best_bufs == pre.best_bufs.update(index, post.bests[index])
    &&& post.names == pre.names
    &&& post.splits == pre.splits
    &&& post.seg_times == pre.seg_times
    &&& post.bests == pre.bests
    &&& post.offset_text == pre.offset_text
    &&& post.game == pre.game
    &&& post.category == pre.category
    &&& post.attempts == pre.attempts
    &&& post.active == pre.active
    &&& post.dirty == pre.dirty
    &&& post.offset_buf == pre.offset_buf
}

/// The blur rule of the offset field: a pending text the offset parser
/// rejects resets the buffer to the canonical offset text with the editor
/// untouched (silent correction); an accepted one is kept as typed and the
/// run is marked modified. The rows are untouched either way.
pub open spec fn offset_blurred(pre: SessionView, post: SessionView) -> bool {
    &&& post.split_bufs == pre.split_bufs
    &&& post.seg_bufs == pre.seg_bufs
    &&& post.best_bufs == pre.best_bufs
    &&& post.names == pre.names
    &&& post.splits == pre.splits
    &&& post.seg_times == pre.seg_times
    &&& post.bests == pre.bests
    &&& post.game == pre.game
    &&& post.category == pre.category
    &&& post.attempts == pre.attempts
    &&& post.active == pre.active
    &&& !offset_parses(pre.offset_buf) ==> (post.offset_buf == pre.offset_text && post.offset_text
        == pre.offset_text && post.dirty == pre.dirty)
    &&& offset_parses(pre.offset_buf) ==> (post.offset_buf == pre.offset_buf && post.dirty)
}

/// The fields every structural mutation leaves alone: the header texts and
/// the pending offset buffer.
pub open spec fn header_kept(pre: SessionView, post: SessionView) -> bool {
    &&& post.offset_text == pre.offset_text
    &&& post.game == pre.game
    &&& post.category == pre.category
    &&& post.attempts == pre.attempts
    &&& post.offset_buf == pre.offset_buf
}

/// Inserting a row above the active one: a blank-named row appears at the
/// active position and is selected there, every pre-existing row keeps its
/// name (the time texts are recomputed by the timing library), the run is
/// marked modified, and the session is resynchronized.
pub open spec fn inserted_above(pre: SessionView, post: SessionView) -> bool {
    &&& post.in_sync()
    &&& header_kept(pre, post)
    &&& post.rows() == pre.rows() + 1
    &&& post.names == pre.names.insert(pre.active, Seq::<char>::empty())
    &&& post.active == pre.active
    &&& post.dirty
}

/// Inserting a row below the active one; see [`inserted_above`]: the blank
/// row appears after the active position and becomes the selected row.
pub open spec fn inserted_below(pre: SessionView, post: SessionView) -> bool {
    &&& post.in_sync()
    &&& header_kept(pre, post)
    &&& post.rows() == pre.rows() + 1
    &&& post.names == pre.names.insert(pre.active + 1, Seq::<char>::empty())
    &&& post.active == pre.active + 1
    &&& post.dirty
}

/// Removing the active row: a no-op on the only remaining row (the rows are
/// unchanged, nothing panics); otherwise exactly that row leaves, the other
/// rows keep their names, the selection lands on the row now at its index
/// (or the last row), the run is marked modified, and the session is
/// resynchronized.
pub open spec fn removed_selected(pre: SessionView, post: SessionView) -> bool {
    &&& post.in_sync()
    &&& header_kept(pre, post)
    &&& pre.rows() == 1 ==> (post.names == pre.names && post.splits == pre.splits
        && post.seg_times == pre.seg_times && post.bests == pre.bests && post.active == pre.active
        && post.dirty == pre.dirty)
    &&& pre.rows() > 1 ==> (post.rows() == pre.rows() - 1 && post.names == pre.names.remove(
        pre.active,
    ) && post.active == (if pre.active < pre.rows() - 1 {
        pre.active
    } else {
        pre.active - 1
    }) && post.dirty)
}

/// Moving the active row up: a no-op on the first row (the rows are
/// unchanged, nothing panics); otherwise the active row and the one above
/// exchange their names (the time texts are recomputed for the new order),
/// the moved row stays selected at its new index, the run is marked
/// modified, and the session is resynchronized.
pub open spec fn moved_up(pre: SessionView, post: SessionView) -> bool {
    &&& post.in_sync()
    &&& header_kept(pre, post)
    &&& post.rows() == pre.rows()
    &&& pre.active == 0 ==> (post.names == pre.names && post.splits == pre.splits
        && post.seg_times == pre.seg_times && post.bests == pre.bests && post.active == 0
        && post.dirty == pre.dirty)
    &&& pre.active != 0 ==> (post.names == pre.names.update(
        pre.active - 1,
        pre.names[pre.active],
    ).update(pre.active, pre.names[pre.active - 1]) && post.active == pre.active - 1 && post.dirty)
}

/// Moving the active row down; see [`moved_up`]: a no-op on the last row,
/// otherwise the active row and the one below exchange their names.
pub open spec fn moved_down(pre: SessionView, post: SessionView) -> bool {
    &&& post.in_sync()
    &&& header_kept(pre, post)
    &&& post.rows() == pre.rows()
    &&& pre.active + 1 == pre.rows() ==> (post.names == pre.names && post.splits == pre.splits
        && post.seg_times == pre.seg_times && post.bests == pre.bests && post.active == pre.active
        && post.dirty == pre.dirty)
    &&& pre.active + 1 < pre.rows() ==> (post.names == pre.names.update(
        pre.active,
        pre.names[pre.active + 1],
    ).update(pre.active + 1, pre.names[pre.active]) && post.active == pre.active + 1 && post.dirty)
}

/// One editing session over a working copy of the canonical run.
pub struct SplitsEditorState {
    /// The working run editor of the timing library.
    pub editor: livesplit_core::RunEditor,
    /// The editable offset text.
    pub offset_buffer: String,
    /// The editable split-time texts, one per row.
    pub split_time_buffers: Vec<String>,
    /// The editable segment-time texts, one per row.
    pub segment_time_buffers: Vec<String>,
    /// The editable best-segment-time texts, one per row.
    pub best_segment_time_buffers: Vec<String>,
}

impl View for SplitsEditorState {
    type V = SessionView;

    open spec fn view(&self) -> SessionView {
        SessionView {
            names: editor_names(self.editor),
            splits: editor_splits(self.editor),
            seg_times: editor_seg_times(self.editor),
            bests: editor_bests(self.editor),
            offset_text: editor_offset_text(self.editor),
            game: editor_game(self.editor),
            category: editor_category(self.editor),
            attempts: editor_attempts(self.editor),
            active: editor_active(self.editor),
            dirty: editor_dirty(self.editor),
            split_bufs: strings_view(self.split_time_buffers@),
            seg_bufs: strings_view(self.segment_time_buffers@),
            best_bufs: strings_view(self.best_segment_time_buffers@),
            offset_buf: self.offset_buffer@,
        }
    }
}

/// A message of the edit-splits dialog, one per user interaction.
pub enum Message {
    /// The game-name field changed.
    UpdateGameName(String),
    /// The category-name field changed.
    UpdateCategoryName(String),
    /// The attempt-count field changed.
    UpdateNumAttempts(String),
    /// A keystroke in the offset field.
    UpdateOffsetBuffer(String),
    /// The offset field lost focus.
    OffsetTextboxBlur,
    /// A row was selected.
    SelectRow(usize),
    /// The active segment's name field changed.
    UpdateSegmentName(String),
    /// A split-time field lost focus.
    SplitTimeBlur(usize),
    /// A segment-time field lost focus.
    SegmentTimeBlur(usize),
    /// A best-segment-time field lost focus.
    BestSegmentTimeBlur(usize),
    /// A keystroke in a split-time field.
    UpdateSplitTimeBuffer(String, usize),
    /// A keystroke in a segment-time field.
    UpdateSegmentTimeBuffer(String, usize),
    /// A keystroke in a best-segment-time field.
    UpdateBestSegmentTimeBuffer(String, usize),
    /// The insert-above button.
    InsertAboveClicked,
    /// The insert-below button.
    InsertBelowClicked,
    /// The remove-segment button.
    RemoveSegmentClicked,
    /// The move-up button.
    MoveUpClicked,
    /// The move-down button.
    MoveDownClicked,
}

impl SplitsEditorState {
    /// The well-formedness of the session.
    pub open spec fn wf(&self) -> bool {
        &&& editor_sel_single(self.editor)
        &&& self@.wf()
    }

    /// Recomputes every row's three buffers from the editor's state. The
    /// canonical texts are untouched; afterwards the buffers equal them.
    fn update_buffers(&mut self)
        ensures
            final(self)@.names == old(self)@.names,
            final(self)@.splits == old(self)@.splits,
            final(self)@.seg_times == old(self)@.seg_times,
            final(self)@.bests == old(self)@.bests,
            final(self)@.offset_text == old(self)@.offset_text,
            final(self)@.game == old(self)@.game,
            final(self)@.category == old(self)@.category,
            final(self)@.attempts == old(self)@.attempts,
            final(self)@.active == old(self)@.active,
            final(self)@.dirty == old(self)@.dirty,
            final(self)@.offset_buf == old(self)@.offset_buf,
            editor_sel_single(final(self).editor) == editor_sel_single(old(self).editor),
            final(self)@.in_sync(),
            final(self)@.names.len() == final(self)@.splits.len(),
            final(self)@.seg_times.len() == final(self)@.splits.len(),
            final(self)@.bests.len() == final(self)@.splits.len(),
    {
        let snap = editor_snapshot(&mut self.editor);
        let n = snap.rows.len();
        let mut splits: Vec<String> = Vec::new();
        let mut segs: Vec<String> = Vec::new();
        let mut bests: Vec<String> = Vec::new();
        let mut i: usize = 0;
        while i < n
            invariant
                n == snap.rows@.len(),
                i <= n,
                splits@.len() == i,
                segs@.len() == i,
                bests@.len() == i,
                forall|j: int| 0 <= j < i ==> splits@[j]@ == snap.rows@[j].split_time@,
                forall|j: int| 0 <= j < i ==> segs@[j]@ == snap.rows@[j].segment_time@,
                forall|j: int| 0 <= j < i ==> bests@[j]@ == snap.rows@[j].best_segment_time@,
            decreases n - i,
        {
            splits.push(snap.rows[i].split_time.clone());
            segs.push(snap.rows[i].segment_time.clone());
            bests.push(snap.rows[i].best_segment_time.clone());
            i = i + 1;
        }
        proof {
            assert(strings_view(splits@) =~= editor_splits(self.editor));
            assert(strings_view(segs@) =~= editor_seg_times(self.editor));
            assert(strings_view(bests@) =~= editor_bests(self.editor));
        }
        self.split_time_buffers = splits;
        self.segment_time_buffers = segs;
        self.best_segment_time_buffers = bests;
    }

    /// Recomputes the three buffers of a single row from the editor's state,
    /// leaving every other buffer untouched; used when only that row could
    /// have changed.
    fn update_buffers_for_row(&mut self, index: usize)
        requires
            old(self)@.wf(),
            index < old(self)@.rows(),
        ensures
            final(self)@.names == old(self)@.names,
            final(self)@.splits == old(self)@.splits,
            final(self)@.seg_times == old(self)@.seg_times,
            final(self)@.bests == old(self)@.bests,
            final(self)@.offset_text == old(self)@.offset_text,
            final(self)@.game == old(self)@.game,
            final(self)@.category == old(self)@.category,
            final(self)@.attempts == old(self)@.attempts,
            final(self)@.active == old(self)@.active,
            final(self)@.dirty == old(self)@.dirty,
            final(self)@.offset_buf == old(self)@.offset_buf,
            editor_sel_single(final(self).editor) == editor_sel_single(old(self).editor),
            final(self)@.wf(),
            final(self)@.split_bufs == old(self)@.split_bufs.update(
                index as int,
                final(self)@.splits[index as int],
            ),
            final(self)@.seg_bufs == old(self)@.seg_bufs.update(
                index as int,
                final(self)@.seg_times[index as int],
            ),
            final(self)@.best_bufs == old(self)@.best_bufs.update(
                index as int,
                final(self)@.bests[index as int],
            ),
    {
        let snap = editor_snapshot(&mut self.editor);
        self.split_time_buffers[index] = snap.rows[index].split_time.clone();
        self.segment_time_buffers[index] = snap.rows[index].segment_time.clone();
        self.best_segment_time_buffers[index] = snap.rows[index].best_segment_time.clone();
        proof {
            assert(self@.split_bufs =~= old(self)@.split_bufs.update(
                index as int,
                self@.splits[index as int],
            ));
            assert(self@.seg_bufs =~= old(self)@.seg_bufs.update(
                index as int,
                self@.seg_times[index as int],
            ));
            assert(self@.best_bufs =~= old(self)@.best_bufs.update(
                index as int,
                self@.bests[index as int],
            ));
        }
    }

    /// Opens a session on the given run. Fails exactly on a run with no
    /// segments, which the canonical model never hands out: an invalid run
    /// here is a fatal initialization error, not a recoverable one. The new
    /// session is synchronized, row 0 is active, the offset buffer holds the
    /// canonical offset text, and the working run's modified mark is the
    /// run's own.
    pub fn new(run: livesplit_core::Run) -> (r: Option<SplitsEditorState>)
        ensures
            r is Some <==> !run_is_empty(run),
            r matches Some(s) ==> {
                &&& s.wf()
                &&& s@.in_sync()
                &&& s@.active == 0
                &&& s@.offset_buf == s@.offset_text
                &&& s@.dirty == run_modified(run)
            },
    {
        match editor_new(run) {
            None => None,
            Some(mut editor) => {
                let snap = editor_snapshot(&mut editor);
                let mut me = SplitsEditorState {
                    editor,
                    offset_buffer: snap.offset,
                    split_time_buffers: Vec::new(),
                    segment_time_buffers: Vec::new(),
                    best_segment_time_buffers: Vec::new(),
                };
                me.update_buffers();
                Some(me)
            },
        }
    }

    /// Opens a session on a copy of the run the shared timer currently
    /// holds. The timer keeps its run non-empty, so this cannot fail.
    pub fn open_shared(timer: &livesplit_core::SharedTimer) -> (r: SplitsEditorState)
        ensures
            r.wf(),
            r@.in_sync(),
            r@.active == 0,
            r@.offset_buf == r@.offset_text,
    {
        let run = shared_timer_run_copy(timer);
        match Self::new(run) {
            Some(s) => s,
            // the copied run has at least one segment, so opening cannot fail
            None => vstd::pervasive::unreached(),
        }
    }

    /// Selects a row: the selection collapses to that row, which becomes the
    /// active one. Reselecting the active row changes nothing else; a row
    /// that does not exist is ignored rather than an error, since the
    /// buttons for it cannot be shown.
    pub fn select_row(&mut self, index: usize)
        requires
            old(self).wf(),
        ensures
            final(self).wf(),
            index < old(self)@.rows() ==> final(self)@ == (SessionView {
                active: index as int,
                ..old(self)@
            }),
            index >= old(self)@.rows() ==> final(self)@ == old(self)@,
    {
        if index < self.split_time_buffers.len() {
            editor_select_only(&mut self.editor, index);
        }
    }

    /// Inserts an empty row above the active one; the new row is selected at
    /// the active position. The session is resynchronized: one more row,
    /// buffers equal to the canonical texts.
    pub fn insert_above(&mut self)
        requires
            old(self).wf(),
        ensures
            final(self).wf(),
            inserted_above(old(self)@, final(self)@),
    {
        editor_insert_above(&mut self.editor);
        self.update_buffers();
    }

    /// Inserts an empty row below the active one; the new row is selected.
    /// The session is resynchronized.
    pub fn insert_below(&mut self)
        requires
            old(self).wf(),
        ensures
            final(self).wf(),
            inserted_below(old(self)@, final(self)@),
    {
        editor_insert_below(&mut self.editor);
        self.update_buffers();
    }

    /// Removes the active row, unless it is the only one (the button for
    /// that case is disabled; called anyway, it is a no-op, never a panic).
    /// The session is resynchronized.
    pub fn remove_selected(&mut self)
        requires
            old(self).wf(),
        ensures
            final(self).wf(),
            removed_selected(old(self)@, final(self)@),
    {
        editor_remove_selected(&mut self.editor);
        self.update_buffers();
    }

    /// Moves the active row up by one, keeping it selected, unless it is the
    /// first row (then a no-op). The session is resynchronized.
    pub fn move_up(&mut self)
        requires
            old(self).wf(),
        ensures
            final(self).wf(),
            moved_up(old(self)@, final(self)@),
    {
        editor_move_up(&mut self.editor);
        self.update_buffers();
    }

    /// Moves the active row down by one, keeping it selected, unless it is
    /// the last row (then a no-op). The session is resynchronized.
    pub fn move_down(&mut self)
        requires
            old(self).wf(),
        ensures
            final(self).wf(),
            moved_down(old(self)@, final(self)@),
    {
        editor_move_down(&mut self.editor);
        self.update_buffers();
    }

    /// A keystroke in the split-time field of a row: the typed text replaces
    /// that buffer at once (the display never fights the cursor) and is
    /// optimistically applied to the active row; a text the time parser
    /// rejects is swallowed and the canonical texts stay as they were. The
    /// buffers of other rows and columns are untouched. A row that does not
    /// exist is ignored.
    pub fn type_split_time(&mut self, text: String, index: usize)
        requires
            old(self).wf(),
        ensures
            final(self).wf(),
            index < old(self)@.rows() ==> split_time_typed(
                old(self)@,
                final(self)@,
                text@,
                index as int,
            ),
            index >= old(self)@.rows() ==> final(self)@ == old(self)@,
    {
        if index < self.split_time_buffers.len() {
            editor_parse_set_split(&mut self.editor, text.as_str());
            self.split_time_buffers[index] = text;
            proof {
                assert(self@.split_bufs =~= old(self)@.split_bufs.update(index as int, text@));
            }
        }
    }

    /// A keystroke in the segment-time field of a row; the same optimistic
    /// contract as for the split time.
    pub fn type_segment_time(&mut self, text: String, index: usize)
        requires
            old(self).wf(),
        ensures
            final(self).wf(),
            index < old(self)@.rows() ==> segment_time_typed(
                old(self)@,
                final(self)@,
                text@,
                index as int,
            ),
            index >= old(self)@.rows() ==> final(self)@ == old(self)@,
    {
        if index < self.segment_time_buffers.len() {
            editor_parse_set_segment(&mut self.editor, text.as_str());
            self.segment_time_buffers[index] = text;
            proof {
                assert(self@.seg_bufs =~= old(self)@.seg_bufs.update(index as int, text@));
            }
        }
    }

    /// A keystroke in the best-segment-time field of a row; the same
    /// optimistic contract as for the split time.
    pub fn type_best_segment_time(&mut self, text: String, index: usize)
        requires
            old(self).wf(),
        ensures
            final(self).wf(),
            index < old(self)@.rows() ==> best_time_typed(
                old(self)@,
                final(self)@,
                text@,
                index as int,
            ),
            index >= old(self)@.rows() ==> final(self)@ == old(self)@,
    {
        if index < self.best_segment_time_buffers.len() {
            editor_parse_set_best(&mut self.editor, text.as_str());
            self.best_segment_time_buffers[index] = text;
            proof {
                assert(self@.best_bufs =~= old(self)@.best_bufs.update(index as int, text@));
            }
        }
    }

    /// A split-time field lost focus: the whole session is resynchronized,
    /// so every buffer again equals its canonical text. In particular, a
    /// buffer whose typed text the parser rejected is silently restored.
    pub fn blur_split_time(&mut self, _index: usize)
        requires
            old(self).wf(),
        ensures
            final(self).wf(),
            resynced(old(self)@, final(self)@),
    {
        self.update_buffers();
    }

    /// A segment-time field lost focus; same contract as a split-time blur.
    pub fn blur_segment_time(&mut self, _index: usize)
        requires
            old(self).wf(),
        ensures
            final(self).wf(),
            resynced(old(self)@, final(self)@),
    {
        self.update_buffers();
    }

    /// A best-segment-time field lost focus: only that row could have
    /// changed, so only that row's buffers are recomputed (and restored if
    /// the typed text had been rejected). A row that does not exist is
    /// ignored.
    pub fn blur_best_segment_time(&mut self, index: usize)
        requires
            old(self).wf(),
        ensures
            final(self).wf(),
            index < old(self)@.rows() ==> row_resynced(old(self)@, final(self)@, index as int),
            index >= old(self)@.rows() ==> final(self)@ == old(self)@,
    {
        if index < self.split_time_buffers.len() {
            self.update_buffers_for_row(index);
        }
    }

    /// A keystroke in the offset field: the typed text replaces the buffer
    /// and nothing else happens. The offset is only ever committed on blur
    /// or on close, never per keystroke.
    pub fn type_offset(&mut self, text: String)
        requires
            old(self).wf(),
        ensures
            final(self).wf(),
            final(self)@ == (SessionView { offset_buf: text@, ..old(self)@ }),
    {
        self.offset_buffer = text;
    }

    /// The offset field lost focus: the pending text is committed. A text
    /// the offset parser rejects resets the buffer to the canonical offset
    /// text (silent correction); an accepted one is kept as typed and the
    /// run is marked modified.
    pub fn blur_offset(&mut self)
        requires
            old(self).wf(),
        ensures
            final(self).wf(),
            offset_blurred(old(self)@, final(self)@),
    {
        if !editor_parse_set_offset(&mut self.editor, self.offset_buffer.as_str()) {
            let snap = editor_snapshot(&mut self.editor);
            self.offset_buffer = snap.offset;
        }
    }

    /// The game-name field changed: the name is stored as typed.
    pub fn set_game_name(&mut self, text: String)
        requires
            old(self).wf(),
        ensures
            final(self).wf(),
            final(self)@ == (SessionView { game: text@, dirty: true, ..old(self)@ }),
    {
        editor_set_game(&mut self.editor, text.as_str());
    }

    /// The category-name field changed: the name is stored as typed.
    pub fn set_category_name(&mut self, text: String)
        requires
            old(self).wf(),
        ensures
            final(self).wf(),
            final(self)@ == (SessionView { category: text@, dirty: true, ..old(self)@ }),
    {
        editor_set_category(&mut self.editor, text.as_str());
    }

    /// The active segment's name field changed: exactly the active row's
    /// name is replaced.
    pub fn set_segment_name(&mut self, text: String)
        requires
            old(self).wf(),
        ensures
            final(self).wf(),
            final(self)@ == (SessionView {
                names: old(self)@.names.update(old(self)@.active, text@),
                dirty: true,
                ..old(self)@
            }),
    {
        editor_set_segment_name(&mut self.editor, text.as_str());
    }

    /// The attempt-count field changed: a text that is a decimal numeral
    /// fitting a 32-bit count is applied; any other text is swallowed and
    /// nothing changes.
    pub fn set_attempts_text(&mut self, text: String)
        requires
            old(self).wf(),
        ensures
            final(self).wf(),
            (match parse_attempt_count_spec(text@) {
                Some(n) => final(self)@ == (SessionView {
                    attempts: n,
                    dirty: true,
                    ..old(self)@
                }),
                None => final(self)@ == old(self)@,
            }),
    {
        match parse_attempt_count(text.as_str()) {
            Some(n) => editor_set_attempts(&mut self.editor, n),
            None => (),
        }
    }

    /// Dispatches one dialog message to the session. Every message keeps the
    /// session well formed, and each carries the full contract of the method
    /// it forwards to.
    pub fn update(&mut self, message: Message)
        requires
            old(self).wf(),
        ensures
            final(self).wf(),
            (message matches Message::UpdateGameName(text) ==> final(self)@ == (SessionView {
                game: text@,
                dirty: true,
                ..old(self)@
            })),
            (message matches Message::UpdateCategoryName(text) ==> final(self)@ == (SessionView {
                category: text@,
                dirty: true,
                ..old(self)@
            })),
            (message matches Message::UpdateNumAttempts(text) ==> (match parse_attempt_count_spec(
                text@,
            ) {
                Some(n) => final(self)@ == (SessionView { attempts: n, dirty: true, ..old(self)@ }),
                None => final(self)@ == old(self)@,
            })),
            (message matches Message::UpdateOffsetBuffer(text) ==> final(self)@ == (SessionView {
                offset_buf: text@,
                ..old(self)@
            })),
            message is OffsetTextboxBlur ==> offset_blurred(old(self)@, final(self)@),
            (message matches Message::SelectRow(index) ==> {
                &&& index < old(self)@.rows() ==> final(self)@ == (SessionView {
                    active: index as int,
                    ..old(self)@
                })
                &&& index >= old(self)@.rows() ==> final(self)@ == old(self)@
            }),
            (message matches Message::UpdateSegmentName(text) ==> final(self)@ == (SessionView {
                names: old(self)@.names.update(old(self)@.active, text@),
                dirty: true,
                ..old(self)@
            })),
            message is SplitTimeBlur ==> resynced(old(self)@, final(self)@),
            message is SegmentTimeBlur ==> resynced(old(self)@, final(self)@),
            (message matches Message::BestSegmentTimeBlur(index) ==> {
                &&& index < old(self)@.rows() ==> row_resynced(old(self)@, final(self)@, index as int)
                &&& index >= old(self)@.rows() ==> final(self)@ == old(self)@
            }),
            (message matches Message::UpdateSplitTimeBuffer(text, index) ==> {
                &&& index < old(self)@.rows() ==> split_time_typed(
                    old(self)@,
                    final(self)@,
                    text@,
                    index as int,
                )
                &&& index >= old(self)@.rows() ==> final(self)@ == old(self)@
            }),
            (message matches Message::UpdateSegmentTimeBuffer(text, index) ==> {
                &&& index < old(self)@.rows() ==> segment_time_typed(
                    old(self)@,
                    final(self)@,
                    text@,
                    index as int,
                )
                &&& index >= old(self)@.rows() ==> final(self)@ == old(self)@
            }),
            (message matches Message::UpdateBestSegmentTimeBuffer(text, index) ==> {
                &&& index < old(self)@.rows() ==> best_time_typed(
                    old(self)@,
                    final(self)@,
                    text@,
                    index as int,
                )
                &&& index >= old(self)@.rows() ==> final(self)@ == old(self)@
            }),
            message is InsertAboveClicked ==> inserted_above(old(self)@, final(self)@),
            message is InsertBelowClicked ==> inserted_below(old(self)@, final(self)@),
            message is RemoveSegmentClicked ==> removed_selected(old(self)@, final(self)@),
            message is MoveUpClicked ==> moved_up(old(self)@, final(self)@),
            message is MoveDownClicked ==> moved_down(old(self)@, final(self)@),
    {
        match message {
            Message::UpdateGameName(text) => self.set_game_name(text),
            Message::UpdateCategoryName(text) => self.set_category_name(text),
            Message::UpdateNumAttempts(text) => self.set_attempts_text(text),
            Message::UpdateOffsetBuffer(text) => self.type_offset(text),
            Message::OffsetTextboxBlur => self.blur_offset(),
            Message::SelectRow(index) => self.select_row(index),
            Message::UpdateSegmentName(text) => self.set_segment_name(text),
            Message::SplitTimeBlur(index) => self.blur_split_time(index),
            Message::SegmentTimeBlur(index) => self.blur_segment_time(index),
            Message::BestSegmentTimeBlur(index) => self.blur_best_segment_time(index),
            Message::UpdateSplitTimeBuffer(text, index) => self.type_split_time(text, index),
            Message::UpdateSegmentTimeBuffer(text, index) => self.type_segment_time(text, index),
            Message::UpdateBestSegmentTimeBuffer(text, index) => self.type_best_segment_time(
                text,
                index,
            ),
            Message::InsertAboveClicked => self.insert_above(),
            Message::InsertBelowClicked => self.insert_below(),
            Message::RemoveSegmentClicked => self.remove_selected(),
            Message::MoveUpClicked => self.move_up(),
            Message::MoveDownClicked => self.move_down(),
        }
    }

    /// Finalizes the session into a run: a pending offset edit is committed
    /// by the blur rule (an offset buffer equal to the canonical text is no
    /// pending edit and is not re-applied, so an untouched session never
    /// marks the run modified), and the editor is closed. The run is
    /// non-empty, and its modified mark is the session's, raised only by a
    /// pending offset edit that parses.
    pub fn finish(self) -> (r: livesplit_core::Run)
        requires
            self.wf(),
        ensures
            !run_is_empty(r),
            run_modified(r) == (self@.dirty || (self@.offset_buf != self@.offset_text
                && offset_parses(self@.offset_buf))),
    {
        let mut me = self;
        let snap = editor_snapshot(&mut me.editor);
        if !(me.offset_buffer == snap.offset) {
            editor_parse_set_offset(&mut me.editor, me.offset_buffer.as_str());
        }
        editor_close(me.editor)
    }

    /// Closes the session and commits the edited run back to the shared
    /// timer, replacing the canonical run without starting an attempt. The
    /// editor keeps its run non-empty, so the replacement is never rejected
    /// and no edits are lost; the result reports it.
    pub fn close_window(self, timer: &livesplit_core::SharedTimer) -> (r: bool)
        requires
            self.wf(),
        ensures
            r,
    {
        let run = self.finish();
        shared_timer_replace_run(timer, run, false)
    }
}

/// The value the attempt-count field commits for a typed text: a decimal
/// numeral (optionally with a leading plus sign) that fits a 32-bit count,
/// or nothing.
pub open spec fn parse_attempt_count_spec(s: Seq<char>) -> Option<u32> {
    crate::numbers::spec_parse_u32(s)
}

/// Typing an unparsable value into a time field and then blurring it
/// restores the field to the value it held before typing began: the round
/// trip through invalid input is a no-op. `before` is a session whose field
/// holds its canonical text; `after_typing` is related to it exactly as the
/// typing contract ([`time_typing_post`] with a rejected text) promises;
/// `after_blur` is related to that exactly as the blur contract
/// ([`resynced`]) promises. On a session that was fully synchronized, every
/// buffer is back to its old text.
pub proof fn lemma_unparsable_roundtrip_is_noop(
    before: SessionView,
    after_typing: SessionView,
    after_blur: SessionView,
    text: Seq<char>,
    index: int,
)
    requires
        before.wf(),
        0 <= index < before.rows(),
        before.split_bufs[index] == before.splits[index],
        time_typing_post(before, after_typing, false),
        after_typing.split_bufs == before.split_bufs.update(index, text),
        resynced(after_typing, after_blur),
    ensures
        after_blur.split_bufs[index] == before.split_bufs[index],
        before.in_sync() ==> (after_blur.split_bufs == before.split_bufs && after_blur.seg_bufs
            == before.seg_bufs && after_blur.best_bufs == before.best_bufs),
{
}

/// Committing a session whose edits are a strict no-op leaves the canonical
/// model's modified mark exactly as it was before opening. Opening a session
/// gives it the run's own mark and an offset buffer equal to the canonical
/// offset text; finalizing such an untouched session hands back a run whose
/// mark — `dirty || (offset_buf != offset_text && offset_parses(offset_buf))`
/// as `finish` promises — is the one the session started with.
pub proof fn lemma_noop_commit_preserves_modified(v: SessionView, was_modified: bool)
    requires
        v.dirty == was_modified,
        v.offset_buf == v.offset_text,
    ensures
        (v.dirty || (v.offset_buf != v.offset_text && offset_parses(v.offset_buf)))
            == was_modified,
{
}

} // verus!
