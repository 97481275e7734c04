use livesplit_core::{Run, Segment, Timer};
use splitedit::model::{
    is_dirty, is_timer_mid_run, load_splits_from_bytes, serialize_splits, LoadSplitsError,
    SaveSplitsError,
};
use splitedit::numbers::parse_attempt_count;
use splitedit::widgets::focus_change_message;
use splitedit::windows::{WindowKind, WindowRegistry};

fn model_test_timer() -> livesplit_core::SharedTimer {
    let mut run = Run::new();
    run.set_game_name("Game");
    run.push_segment(Segment::new("One"));
    run.push_segment(Segment::new("Two"));
    Timer::new(run).unwrap().into_shared()
}

#[test]
fn parse_attempt_count_accepts_numerals() {
    assert_eq!(parse_attempt_count("0"), Some(0));
    assert_eq!(parse_attempt_count("42"), Some(42));
    assert_eq!(parse_attempt_count("0042"), Some(42));
    assert_eq!(parse_attempt_count("+7"), Some(7));
    assert_eq!(parse_attempt_count("4294967295"), Some(u32::MAX));
}

#[test]
fn parse_attempt_count_rejects_everything_else() {
    assert_eq!(parse_attempt_count(""), None);
    assert_eq!(parse_attempt_count("+"), None);
    assert_eq!(parse_attempt_count("-1"), None);
    assert_eq!(parse_attempt_count(" 1"), None);
    assert_eq!(parse_attempt_count("1 "), None);
    assert_eq!(parse_attempt_count("12a"), None);
    assert_eq!(parse_attempt_count("1.5"), None);
    assert_eq!(parse_attempt_count("4294967296"), None);
    assert_eq!(parse_attempt_count("99999999999999999999"), None);
}

#[test]
fn splits_roundtrip_through_serialization() {
    let timer = model_test_timer();
    let document = serialize_splits(&timer).unwrap();
    let loaded = load_splits_from_bytes(&timer, document.as_bytes());
    assert_eq!(loaded, Ok(true));
    let guard = timer.read().unwrap();
    assert_eq!(guard.run().game_name(), "Game");
    assert_eq!(guard.run().len(), 2);
}

#[test]
fn garbage_bytes_fail_to_load() {
    let timer = model_test_timer();
    let loaded = load_splits_from_bytes(&timer, b"not a splits file at all");
    assert_eq!(loaded, Err(LoadSplitsError::ParseError));
}

#[test]
fn load_is_skipped_while_mid_run() {
    let timer = model_test_timer();
    let document = serialize_splits(&timer).unwrap();
    timer.write().unwrap().start();
    assert!(is_timer_mid_run(&timer));
    let loaded = load_splits_from_bytes(&timer, document.as_bytes());
    assert_eq!(loaded, Ok(false));
}

#[test]
fn serializing_marks_the_run_saved() {
    let mut run = Run::new();
    run.push_segment(Segment::new("One"));
    run.mark_as_modified();
    let timer = Timer::new(run).unwrap().into_shared();
    assert!(is_dirty(&timer));
    assert!(serialize_splits(&timer).is_ok());
    assert!(!is_dirty(&timer));
    let _: Result<String, SaveSplitsError> = serialize_splits(&timer);
}

#[test]
fn timer_phase_gates_destructive_actions() {
    let timer = model_test_timer();
    assert!(!is_timer_mid_run(&timer));
    timer.write().unwrap().start();
    assert!(is_timer_mid_run(&timer));
    timer.write().unwrap().pause();
    assert!(is_timer_mid_run(&timer));
    timer.write().unwrap().reset(false);
    assert!(!is_timer_mid_run(&timer));
}

#[test]
fn registry_identifies_windows() {
    let mut registry = WindowRegistry::new(1);
    assert_eq!(registry.identify_window(1), WindowKind::Main);
    assert_eq!(registry.identify_window(2), WindowKind::Untracked);
    registry.settings_opened(2);
    registry.edit_splits_opened(3);
    assert_eq!(registry.identify_window(2), WindowKind::Settings);
    assert_eq!(registry.identify_window(3), WindowKind::EditSplits);
    registry.settings_closed();
    assert_eq!(registry.identify_window(2), WindowKind::Untracked);
    registry.edit_splits_closed();
    assert_eq!(registry.identify_window(3), WindowKind::Untracked);
}

#[test]
fn focus_wrapper_publishes_only_changes() {
    assert_eq!(focus_change_message(false, true), Some(true));
    assert_eq!(focus_change_message(true, false), Some(false));
    assert_eq!(focus_change_message(true, true), None);
    assert_eq!(focus_change_message(false, false), None);
}
