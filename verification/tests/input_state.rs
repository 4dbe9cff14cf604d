use sigil::input::{Input, InputEvent, KEY_ESCAPE};

#[test]
fn just_pressed_matches_cycle_exactly() {
    let mut input = Input::new();
    let events = vec![
        InputEvent::Press(5),
        InputEvent::Release(5),
        InputEvent::Press(7),
    ];
    input.update(&events);
    assert!(input.is_key_just_pressed(5));
    assert!(input.is_key_just_pressed(7));
    assert!(!input.is_key_just_pressed(9));
    assert!(input.is_key_just_released(5));
    assert!(!input.is_key_just_released(7));
}

#[test]
fn just_sets_empty_after_clear_with_no_events() {
    let mut input = Input::new();
    input.update(&vec![InputEvent::Press(3)]);
    assert!(input.is_key_just_pressed(3));
    input.update(&vec![]);
    assert!(!input.is_key_just_pressed(3));
    assert!(!input.is_key_just_released(3));
}

#[test]
fn held_reflects_latest_transition() {
    let mut input = Input::new();
    input.update(&vec![InputEvent::Press(11)]);
    assert!(input.is_key_pressed(11));
    input.update(&vec![InputEvent::Release(11)]);
    assert!(!input.is_key_pressed(11));
    input.update(&vec![InputEvent::Press(11), InputEvent::Release(11)]);
    assert!(!input.is_key_pressed(11));
    input.update(&vec![InputEvent::Release(11), InputEvent::Press(11)]);
    assert!(input.is_key_pressed(11));
}

#[test]
fn update_with_no_events_keeps_held() {
    let mut input = Input::new();
    input.update(&vec![InputEvent::Press(4), InputEvent::Press(8)]);
    input.update(&vec![]);
    assert!(input.is_key_pressed(4));
    assert!(input.is_key_pressed(8));
    assert!(!input.is_key_pressed(5));
}

#[test]
fn repeated_press_stays_held_and_counts_as_just_pressed() {
    let mut input = Input::new();
    input.update(&vec![InputEvent::Press(6)]);
    input.update(&vec![InputEvent::Press(6)]);
    assert!(input.is_key_pressed(6));
    assert!(input.is_key_just_pressed(6));
}

#[test]
fn release_of_unheld_key_is_recorded() {
    let mut input = Input::new();
    input.update(&vec![InputEvent::Release(2)]);
    assert!(input.is_key_just_released(2));
    assert!(!input.is_key_pressed(2));
}

#[test]
fn escape_is_a_key_like_any_other() {
    let mut input = Input::new();
    input.update(&vec![InputEvent::Press(KEY_ESCAPE)]);
    assert!(input.is_key_just_pressed(KEY_ESCAPE));
    assert!(input.is_key_pressed(KEY_ESCAPE));
}
