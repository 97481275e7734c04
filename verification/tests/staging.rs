use livesplit_core::hotkey::{Hotkey, KeyCode, Modifiers};
use livesplit_core::{HotkeyConfig, HotkeySystem, Run, Segment, Timer};
use splitedit::hotkeys::{
    assign_focused_hotkey, clear_hotkey, hotkey_focus_change, load_hotkeys_from_hks,
    save_hotkeys_to_hks, HotkeyBox,
};

fn plain_key(code: KeyCode) -> Hotkey {
    Hotkey { key_code: code, modifiers: Modifiers::empty() }
}

fn staging_boxes() -> Vec<HotkeyBox> {
    vec![
        HotkeyBox::new("Start/Split"),
        HotkeyBox::new("Reset"),
        HotkeyBox::new("Undo"),
        HotkeyBox::new("Skip"),
        HotkeyBox::new("Pause"),
        HotkeyBox::new("Undo All Pauses"),
        HotkeyBox::new("Previous Comparison"),
        HotkeyBox::new("Next Comparison"),
        HotkeyBox::new("Toggle Timing Method"),
    ]
}

fn hotkey_test_timer() -> livesplit_core::SharedTimer {
    let mut run = Run::new();
    run.push_segment(Segment::new("One"));
    Timer::new(run).unwrap().into_shared()
}

#[test]
fn fresh_boxes_are_unbound() {
    let boxes = staging_boxes();
    assert_eq!(boxes.len(), 9);
    for b in &boxes {
        assert!(b.value.is_none());
    }
    assert_eq!(boxes[0].label, "Start/Split");
}

#[test]
fn focus_tracking_follows_most_recent_slot() {
    let mut focused: Option<usize> = None;
    hotkey_focus_change(&mut focused, 3, true);
    assert_eq!(focused, Some(3));
    hotkey_focus_change(&mut focused, 5, true);
    assert_eq!(focused, Some(5));
    // unfocusing a slot that no longer holds the focus changes nothing
    hotkey_focus_change(&mut focused, 3, false);
    assert_eq!(focused, Some(5));
    hotkey_focus_change(&mut focused, 5, false);
    assert_eq!(focused, None);
}

#[test]
fn key_press_lands_in_focused_slot() {
    let mut boxes = staging_boxes();
    let key = plain_key(KeyCode::Numpad7);
    assign_focused_hotkey(&mut boxes, &None, Some(key));
    assert!(boxes.iter().all(|b| b.value.is_none()));
    assign_focused_hotkey(&mut boxes, &Some(2), Some(key));
    assert_eq!(boxes[2].value, Some(key));
    assert!(boxes[0].value.is_none());
}

#[test]
fn clearing_a_slot_unbinds_it() {
    let mut boxes = staging_boxes();
    assign_focused_hotkey(&mut boxes, &Some(4), Some(plain_key(KeyCode::KeyA)));
    clear_hotkey(&mut boxes, 4);
    assert!(boxes[4].value.is_none());
    assert_eq!(boxes[4].label, "Pause");
    // clearing a slot that does not exist is ignored
    clear_hotkey(&mut boxes, 99);
    assert_eq!(boxes.len(), 9);
}

#[test]
fn staged_swap_stays_staged_until_committed() {
    let mut boxes = staging_boxes();
    let a = plain_key(KeyCode::Numpad1);
    let b = plain_key(KeyCode::Numpad3);
    assign_focused_hotkey(&mut boxes, &Some(0), Some(a));
    assign_focused_hotkey(&mut boxes, &Some(1), Some(b));
    // swap the two bindings in the staged copy
    assign_focused_hotkey(&mut boxes, &Some(0), Some(b));
    assign_focused_hotkey(&mut boxes, &Some(1), Some(a));
    assert_eq!(boxes[0].value, Some(b));
    assert_eq!(boxes[1].value, Some(a));
}

#[test]
fn commit_swaps_bindings_live() {
    // The live hotkey system needs a platform hook; where this sandbox has
    // none, creation fails and the live half of the protocol has no system
    // to run against.
    let timer = hotkey_test_timer();
    let mut config = HotkeyConfig::default();
    config.split = Some(plain_key(KeyCode::Numpad1));
    config.pause = Some(plain_key(KeyCode::Numpad5));
    let Ok(mut hks) = HotkeySystem::with_config(timer, config) else {
        return;
    };
    splitedit::hotkeys::disable_hotkeys(&mut hks);

    let mut boxes = staging_boxes();
    load_hotkeys_from_hks(&hks, &mut boxes);
    assert_eq!(boxes[0].value, Some(plain_key(KeyCode::Numpad1)));
    assert_eq!(boxes[4].value, Some(plain_key(KeyCode::Numpad5)));

    // swap split and pause, a pure permutation of the live bindings
    let split = boxes[0].value;
    let pause = boxes[4].value;
    assign_focused_hotkey(&mut boxes, &Some(0), pause);
    assign_focused_hotkey(&mut boxes, &Some(4), split);

    assert!(save_hotkeys_to_hks(&mut hks, &boxes).is_ok());
    let live = hks.config();
    assert_eq!(live.split, Some(plain_key(KeyCode::Numpad5)));
    assert_eq!(live.pause, Some(plain_key(KeyCode::Numpad1)));
}

#[test]
fn discard_reloads_live_bindings() {
    let timer = hotkey_test_timer();
    let mut config = HotkeyConfig::default();
    config.undo = Some(plain_key(KeyCode::Numpad8));
    let Ok(mut hks) = HotkeySystem::with_config(timer, config) else {
        return;
    };
    splitedit::hotkeys::disable_hotkeys(&mut hks);

    let mut boxes = staging_boxes();
    load_hotkeys_from_hks(&hks, &mut boxes);
    let before = hks.config();

    // edit the staged copy, then discard by reloading
    assign_focused_hotkey(&mut boxes, &Some(2), Some(plain_key(KeyCode::KeyZ)));
    load_hotkeys_from_hks(&hks, &mut boxes);
    assert_eq!(boxes[2].value, before.undo);
    assert_eq!(hks.config(), before);
}
