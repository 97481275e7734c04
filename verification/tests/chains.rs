use splitedit::lifecycle::{
    start_close_workflow, start_load_workflow, ChainAction, ChainEvent, ChainPhase, ChainPurpose,
    SaveChoice, WorkflowChain,
};

#[test]
fn clean_idle_close_finishes_at_once() {
    let (chain, action) = start_close_workflow(false, false);
    assert_eq!(action, ChainAction::Finish);
    assert_eq!(chain.phase, ChainPhase::Finished);
    assert!(!chain.cancelled);
}

#[test]
fn destructive_no_cancels_everything() {
    // A running timer and a quit request: answering "No" prevents the
    // unsaved-changes gate from ever being presented.
    let (mut chain, action) = start_close_workflow(true, true);
    assert_eq!(action, ChainAction::AskDestructive);
    let a = chain.step(ChainEvent::DestructiveAnswered(false));
    assert_eq!(a, ChainAction::Stop);
    assert!(chain.cancelled);
    // however the pending dialogs resolve afterwards, nothing happens
    let a = chain.step(ChainEvent::SaveChoiceMade(SaveChoice::Discard));
    assert_eq!(a, ChainAction::Stop);
    let a = chain.step(ChainEvent::SavePathPicked(true));
    assert_eq!(a, ChainAction::Stop);
    assert_eq!(chain.phase, ChainPhase::Cancelled);
}

#[test]
fn destructive_yes_reaches_save_gate() {
    let (mut chain, action) = start_close_workflow(true, true);
    assert_eq!(action, ChainAction::AskDestructive);
    let a = chain.step(ChainEvent::DestructiveAnswered(true));
    assert_eq!(a, ChainAction::AskSaveChoice);
    assert_eq!(chain.phase, ChainPhase::AwaitingSaveChoice);
}

#[test]
fn destructive_yes_with_clean_model_finishes() {
    let (mut chain, action) = start_close_workflow(true, false);
    assert_eq!(action, ChainAction::AskDestructive);
    let a = chain.step(ChainEvent::DestructiveAnswered(true));
    assert_eq!(a, ChainAction::Finish);
    assert!(!chain.cancelled);
}

#[test]
fn save_prompt_cancel_keeps_window_open() {
    // Dirty model, close request, "Cancel": the terminal action never runs
    // and the save path is never asked for.
    let (mut chain, action) = start_close_workflow(false, true);
    assert_eq!(action, ChainAction::AskSaveChoice);
    let a = chain.step(ChainEvent::SaveChoiceMade(SaveChoice::Cancel));
    assert_eq!(a, ChainAction::Stop);
    assert!(chain.cancelled);
    let a = chain.step(ChainEvent::SavePathPicked(true));
    assert_eq!(a, ChainAction::Stop);
}

#[test]
fn save_prompt_discard_closes_without_saving() {
    let (mut chain, action) = start_close_workflow(false, true);
    assert_eq!(action, ChainAction::AskSaveChoice);
    let a = chain.step(ChainEvent::SaveChoiceMade(SaveChoice::Discard));
    assert_eq!(a, ChainAction::Finish);
    assert!(!chain.cancelled);
}

#[test]
fn save_prompt_save_picks_path_before_closing() {
    let (mut chain, action) = start_close_workflow(false, true);
    assert_eq!(action, ChainAction::AskSaveChoice);
    let a = chain.step(ChainEvent::SaveChoiceMade(SaveChoice::Save));
    assert_eq!(a, ChainAction::PickSavePath);
    assert_eq!(chain.phase, ChainPhase::AwaitingSavePath);
    let a = chain.step(ChainEvent::SavePathPicked(true));
    assert_eq!(a, ChainAction::SaveThenFinish);
    assert!(!chain.cancelled);
}

#[test]
fn abandoned_path_picker_cancels_chain() {
    let (mut chain, _) = start_close_workflow(false, true);
    chain.step(ChainEvent::SaveChoiceMade(SaveChoice::Save));
    let a = chain.step(ChainEvent::SavePathPicked(false));
    assert_eq!(a, ChainAction::Stop);
    assert!(chain.cancelled);
}

#[test]
fn mismatched_events_are_ignored() {
    let (mut chain, _) = start_close_workflow(true, true);
    let before = chain;
    let a = chain.step(ChainEvent::SavePathPicked(true));
    assert_eq!(a, ChainAction::Stop);
    assert_eq!(chain, before);
}

#[test]
fn load_refused_while_mid_run() {
    assert!(start_load_workflow(true, true).is_none());
    assert!(start_load_workflow(true, false).is_none());
}

#[test]
fn load_over_dirty_model_asks_first() {
    let (chain, action) = start_load_workflow(false, true).unwrap();
    assert_eq!(action, ChainAction::AskSaveChoice);
    assert_eq!(chain.purpose, ChainPurpose::LoadSplits);
}

#[test]
fn load_over_clean_model_goes_ahead() {
    let (chain, action) = start_load_workflow(false, false).unwrap();
    assert_eq!(action, ChainAction::Finish);
    assert_eq!(chain.purpose, ChainPurpose::LoadSplits);
    let _: WorkflowChain = chain;
}
