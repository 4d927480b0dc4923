use blazing_fast_engine::engine::input::{ElementState, Input};

const KEY_A: u32 = 30;
const KEY_D: u32 = 32;

#[test]
fn fresh_input_knows_nothing() {
    let input = Input::new();
    assert!(!input.is_key_down(KEY_A));
    assert!(!input.is_key_pressed(KEY_A));
    assert!(!input.is_key_up(KEY_A));
    assert!(!input.is_button_down(0));
    assert!(!input.is_button_pressed(0));
    assert!(!input.is_button_up(0));
}

#[test]
fn press_marks_held_and_just_pressed() {
    let mut input = Input::new();
    input.handle_key_event(KEY_A, ElementState::Pressed);
    assert!(input.is_key_pressed(KEY_A));
    assert!(input.is_key_down(KEY_A));
    assert!(!input.is_key_up(KEY_A));
    assert!(!input.is_key_pressed(KEY_D));
}

#[test]
fn repeated_press_in_next_frame_is_not_new() {
    let mut input = Input::new();
    input.handle_key_event(KEY_A, ElementState::Pressed);
    input.clear_frame_states();
    assert!(input.is_key_pressed(KEY_A));
    assert!(!input.is_key_down(KEY_A));
    input.handle_key_event(KEY_A, ElementState::Pressed);
    assert!(input.is_key_pressed(KEY_A));
    assert!(!input.is_key_down(KEY_A));
}

#[test]
fn release_of_held_key() {
    let mut input = Input::new();
    input.handle_key_event(KEY_A, ElementState::Pressed);
    input.clear_frame_states();
    input.handle_key_event(KEY_A, ElementState::Released);
    assert!(!input.is_key_pressed(KEY_A));
    assert!(input.is_key_up(KEY_A));
    input.clear_frame_states();
    assert!(!input.is_key_up(KEY_A));
}

#[test]
fn release_of_key_not_held_is_ignored() {
    let mut input = Input::new();
    input.handle_key_event(KEY_D, ElementState::Released);
    assert!(!input.is_key_up(KEY_D));
    assert!(!input.is_key_pressed(KEY_D));
}

#[test]
fn press_and_release_in_one_frame() {
    let mut input = Input::new();
    input.handle_key_event(KEY_A, ElementState::Pressed);
    input.handle_key_event(KEY_A, ElementState::Released);
    assert!(!input.is_key_pressed(KEY_A));
    assert!(input.is_key_down(KEY_A));
    assert!(input.is_key_up(KEY_A));
}

#[test]
fn buttons_and_keys_are_separate() {
    let mut input = Input::new();
    input.handle_mouse_input_event(KEY_A, ElementState::Pressed);
    assert!(input.is_button_pressed(KEY_A));
    assert!(input.is_button_down(KEY_A));
    assert!(!input.is_key_pressed(KEY_A));
    input.handle_mouse_input_event(KEY_A, ElementState::Released);
    assert!(input.is_button_up(KEY_A));
    assert!(!input.is_button_pressed(KEY_A));
    input.clear_frame_states();
    assert!(!input.is_button_down(KEY_A));
    assert!(!input.is_button_up(KEY_A));
}
