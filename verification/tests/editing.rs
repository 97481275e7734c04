use livesplit_core::{Run, Segment, Timer};
use splitedit::session::{Message, SplitsEditorState};

fn sample_run() -> Run {
    let mut run = Run::new();
    run.set_game_name("Game");
    run.set_category_name("Category");
    run.push_segment(Segment::new("One"));
    run.push_segment(Segment::new("Two"));
    run.push_segment(Segment::new("Three"));
    run
}

fn assert_buffers_match_editor(session: &mut SplitsEditorState) {
    let state = session.editor.state();
    assert_eq!(session.split_time_buffers.len(), state.segments.len());
    assert_eq!(session.segment_time_buffers.len(), state.segments.len());
    assert_eq!(session.best_segment_time_buffers.len(), state.segments.len());
    for (idx, segment) in state.segments.iter().enumerate() {
        assert_eq!(session.split_time_buffers[idx], segment.split_time);
        assert_eq!(session.segment_time_buffers[idx], segment.segment_time);
        assert_eq!(session.best_segment_time_buffers[idx], segment.best_segment_time);
    }
}

#[test]
fn open_rejects_empty_run() {
    assert!(SplitsEditorState::new(Run::new()).is_none());
}

#[test]
fn open_synchronizes_buffers() {
    let mut session = SplitsEditorState::new(sample_run()).unwrap();
    assert_eq!(session.split_time_buffers.len(), 3);
    assert_buffers_match_editor(&mut session);
    assert_eq!(session.offset_buffer, session.editor.state().offset);
}

#[test]
fn structural_operations_keep_buffers_in_sync() {
    // Buffer-collection length equals the session's row count after every
    // insert/remove/move, and each buffer equals its row's canonical text.
    let mut session = SplitsEditorState::new(sample_run()).unwrap();
    let script = [
        Message::SelectRow(1),
        Message::InsertAboveClicked,
        Message::InsertBelowClicked,
        Message::MoveUpClicked,
        Message::MoveDownClicked,
        Message::RemoveSegmentClicked,
        Message::SelectRow(0),
        Message::MoveUpClicked,
        Message::InsertAboveClicked,
        Message::RemoveSegmentClicked,
    ];
    for message in script {
        session.update(message);
        assert_buffers_match_editor(&mut session);
    }
}

#[test]
fn insert_and_remove_change_row_count() {
    let mut session = SplitsEditorState::new(sample_run()).unwrap();
    session.update(Message::InsertBelowClicked);
    assert_eq!(session.split_time_buffers.len(), 4);
    session.update(Message::RemoveSegmentClicked);
    assert_eq!(session.split_time_buffers.len(), 3);
}

#[test]
fn insert_above_adds_blank_row_keeping_names() {
    let mut session = SplitsEditorState::new(sample_run()).unwrap();
    session.update(Message::SelectRow(1));
    session.update(Message::InsertAboveClicked);
    let state = session.editor.state();
    assert_eq!(state.segments.len(), 4);
    assert_eq!(state.segments[0].name, "One");
    assert_eq!(state.segments[1].name, "");
    assert_eq!(state.segments[2].name, "Two");
    assert_eq!(state.segments[3].name, "Three");
}

#[test]
fn insert_below_adds_blank_row_keeping_names() {
    let mut session = SplitsEditorState::new(sample_run()).unwrap();
    session.update(Message::SelectRow(1));
    session.update(Message::InsertBelowClicked);
    let state = session.editor.state();
    assert_eq!(state.segments.len(), 4);
    assert_eq!(state.segments[0].name, "One");
    assert_eq!(state.segments[1].name, "Two");
    assert_eq!(state.segments[2].name, "");
    assert_eq!(state.segments[3].name, "Three");
}

#[test]
fn remove_keeps_other_rows_names() {
    let mut session = SplitsEditorState::new(sample_run()).unwrap();
    session.update(Message::SelectRow(1));
    session.update(Message::RemoveSegmentClicked);
    let state = session.editor.state();
    assert_eq!(state.segments.len(), 2);
    assert_eq!(state.segments[0].name, "One");
    assert_eq!(state.segments[1].name, "Three");
}

#[test]
fn remove_last_remaining_row_is_a_noop() {
    let mut run = Run::new();
    run.push_segment(Segment::new("Only"));
    let mut session = SplitsEditorState::new(run).unwrap();
    session.update(Message::RemoveSegmentClicked);
    assert_eq!(session.split_time_buffers.len(), 1);
}

#[test]
fn move_up_on_first_row_is_a_noop() {
    let mut session = SplitsEditorState::new(sample_run()).unwrap();
    session.update(Message::SelectRow(0));
    session.update(Message::MoveUpClicked);
    let state = session.editor.state();
    assert_eq!(state.segments[0].name, "One");
}

#[test]
fn move_down_swaps_rows() {
    let mut session = SplitsEditorState::new(sample_run()).unwrap();
    session.update(Message::SelectRow(0));
    session.update(Message::MoveDownClicked);
    let state = session.editor.state();
    assert_eq!(state.segments[0].name, "Two");
    assert_eq!(state.segments[1].name, "One");
}

#[test]
fn typing_replaces_buffer_immediately() {
    let mut session = SplitsEditorState::new(sample_run()).unwrap();
    session.update(Message::SelectRow(0));
    session.update(Message::UpdateSplitTimeBuffer("oops".to_owned(), 0));
    assert_eq!(session.split_time_buffers[0], "oops");
}

#[test]
fn unparsable_split_time_restored_on_blur() {
    // Typing an unparsable value into a time field and then blurring it
    // restores the field to the value it held before typing began.
    let mut session = SplitsEditorState::new(sample_run()).unwrap();
    session.update(Message::SelectRow(1));
    let before = session.split_time_buffers[1].clone();
    session.update(Message::UpdateSplitTimeBuffer("not a time".to_owned(), 1));
    session.update(Message::SplitTimeBlur(1));
    assert_eq!(session.split_time_buffers[1], before);
    assert_buffers_match_editor(&mut session);
}

#[test]
fn unparsable_best_segment_restored_on_blur() {
    let mut session = SplitsEditorState::new(sample_run()).unwrap();
    session.update(Message::SelectRow(2));
    let before = session.best_segment_time_buffers[2].clone();
    session.update(Message::UpdateBestSegmentTimeBuffer("???".to_owned(), 2));
    session.update(Message::BestSegmentTimeBlur(2));
    assert_eq!(session.best_segment_time_buffers[2], before);
}

#[test]
fn valid_split_time_formats_on_blur() {
    let mut session = SplitsEditorState::new(sample_run()).unwrap();
    session.update(Message::SelectRow(0));
    session.update(Message::UpdateSplitTimeBuffer("1:23".to_owned(), 0));
    session.update(Message::SplitTimeBlur(0));
    // the canonical formatting is not the raw typed text
    assert_eq!(session.split_time_buffers[0], "1:23.00");
    assert_buffers_match_editor(&mut session);
}

#[test]
fn unparsable_offset_restored_on_blur() {
    let mut session = SplitsEditorState::new(sample_run()).unwrap();
    let before = session.offset_buffer.clone();
    session.update(Message::UpdateOffsetBuffer("garbage".to_owned()));
    assert_eq!(session.offset_buffer, "garbage");
    session.update(Message::OffsetTextboxBlur);
    assert_eq!(session.offset_buffer, before);
}

#[test]
fn valid_offset_kept_as_typed_on_blur() {
    let mut session = SplitsEditorState::new(sample_run()).unwrap();
    session.update(Message::UpdateOffsetBuffer("5.5".to_owned()));
    session.update(Message::OffsetTextboxBlur);
    assert_eq!(session.offset_buffer, "5.5");
    assert_eq!(session.editor.state().offset, "5.50");
}

#[test]
fn attempts_field_applies_numerals_only() {
    let mut session = SplitsEditorState::new(sample_run()).unwrap();
    session.update(Message::UpdateNumAttempts("17".to_owned()));
    assert_eq!(session.editor.attempt_count(), 17);
    session.update(Message::UpdateNumAttempts("seventeen".to_owned()));
    assert_eq!(session.editor.attempt_count(), 17);
    session.update(Message::UpdateNumAttempts("+3".to_owned()));
    assert_eq!(session.editor.attempt_count(), 3);
}

#[test]
fn name_fields_store_text_as_typed() {
    let mut session = SplitsEditorState::new(sample_run()).unwrap();
    session.update(Message::UpdateGameName("New Game".to_owned()));
    session.update(Message::UpdateCategoryName("Any%".to_owned()));
    session.update(Message::SelectRow(1));
    session.update(Message::UpdateSegmentName("Renamed".to_owned()));
    let state = session.editor.state();
    assert_eq!(state.game, "New Game");
    assert_eq!(state.category, "Any%");
    assert_eq!(state.segments[1].name, "Renamed");
}

#[test]
fn untouched_session_commits_without_marking_modified() {
    // Committing a session whose edits are a strict no-op leaves the
    // canonical model's modified mark exactly as it was before opening.
    let run = sample_run();
    assert!(!run.has_been_modified());
    let session = SplitsEditorState::new(run).unwrap();
    let committed = session.finish();
    assert!(!committed.has_been_modified());
}

#[test]
fn modified_mark_survives_untouched_session() {
    let mut run = sample_run();
    run.mark_as_modified();
    let session = SplitsEditorState::new(run).unwrap();
    let committed = session.finish();
    assert!(committed.has_been_modified());
}

#[test]
fn edits_mark_the_run_modified() {
    let session = {
        let mut s = SplitsEditorState::new(sample_run()).unwrap();
        s.update(Message::UpdateGameName("Changed".to_owned()));
        s
    };
    let committed = session.finish();
    assert!(committed.has_been_modified());
}

#[test]
fn pending_offset_edit_commits_on_finish() {
    let mut session = SplitsEditorState::new(sample_run()).unwrap();
    session.update(Message::UpdateOffsetBuffer("2.5".to_owned()));
    let committed = session.finish();
    assert!(committed.has_been_modified());
    assert_eq!(committed.offset(), "2.5".parse().unwrap());
}

#[test]
fn pending_garbage_offset_is_dropped_on_finish() {
    let original_offset = sample_run().offset();
    let mut session = SplitsEditorState::new(sample_run()).unwrap();
    session.update(Message::UpdateOffsetBuffer("nonsense".to_owned()));
    let committed = session.finish();
    assert!(!committed.has_been_modified());
    assert_eq!(committed.offset(), original_offset);
}

#[test]
fn close_window_commits_to_shared_timer() {
    let timer = Timer::new(sample_run()).unwrap().into_shared();
    let mut session = SplitsEditorState::open_shared(&timer);
    session.update(Message::UpdateGameName("Committed".to_owned()));
    assert!(session.close_window(&timer));
    let guard = timer.read().unwrap();
    assert_eq!(guard.run().game_name(), "Committed");
}

#[test]
fn selecting_same_row_twice_is_idempotent() {
    let mut session = SplitsEditorState::new(sample_run()).unwrap();
    session.update(Message::SelectRow(2));
    session.update(Message::SelectRow(2));
    session.update(Message::UpdateSegmentName("Active".to_owned()));
    assert_eq!(session.editor.state().segments[2].name, "Active");
}

#[test]
fn out_of_range_messages_are_ignored() {
    let mut session = SplitsEditorState::new(sample_run()).unwrap();
    session.update(Message::SelectRow(99));
    session.update(Message::UpdateSplitTimeBuffer("1".to_owned(), 99));
    session.update(Message::SplitTimeBlur(99));
    session.update(Message::BestSegmentTimeBlur(99));
    assert_eq!(session.split_time_buffers.len(), 3);
    assert_buffers_match_editor(&mut session);
}
