use scene_engine::inputs::{ButtonState, InputSystem, MouseButton};

#[test]
fn keys_are_released_until_an_event_arrives() {
    let inputs = InputSystem::new();
    assert_eq!(inputs.is_key_pressed(17), ButtonState::RELEASED);
}

#[test]
fn key_events_update_only_their_key() {
    let mut inputs = InputSystem::new();
    inputs.set_key_event(17, ButtonState::PRESSED);
    inputs.set_key_event(23, ButtonState::PRESSED);
    inputs.set_key_event(23, ButtonState::RELEASED);
    assert_eq!(inputs.is_key_pressed(17), ButtonState::PRESSED);
    assert_eq!(inputs.is_key_pressed(23), ButtonState::RELEASED);
    assert_eq!(inputs.is_key_pressed(99), ButtonState::RELEASED);
}

#[test]
fn mouse_buttons_are_tracked_separately() {
    let mut inputs = InputSystem::new();
    inputs.set_mouse_button_event(MouseButton::LEFT, ButtonState::PRESSED);
    inputs.set_mouse_button_event(MouseButton::MIDDLE, ButtonState::PRESSED);
    inputs.set_mouse_button_event(MouseButton::MIDDLE, ButtonState::RELEASED);
    assert_eq!(inputs.is_mouse_button_pressed(MouseButton::LEFT), ButtonState::PRESSED);
    assert_eq!(inputs.is_mouse_button_pressed(MouseButton::RIGHT), ButtonState::RELEASED);
    assert_eq!(inputs.is_mouse_button_pressed(MouseButton::MIDDLE), ButtonState::RELEASED);
}

#[test]
fn mouse_motion_holds_the_last_delta() {
    let mut inputs = InputSystem::new();
    assert_eq!(inputs.get_mouse_motion(), (0, 0));
    inputs.set_mouse_move_event(3.5f64.to_bits(), (-2.0f64).to_bits());
    let (dx, dy) = inputs.get_mouse_motion();
    assert_eq!(f64::from_bits(dx), 3.5);
    assert_eq!(f64::from_bits(dy), -2.0);
}

#[test]
fn button_state_toggles() {
    let mut state = ButtonState::RELEASED;
    state.pressed();
    assert_eq!(state, ButtonState::PRESSED);
    state.released();
    assert_eq!(state, ButtonState::RELEASED);
}

#[test]
fn snapshot_mirrors_the_input_state() {
    let mut inputs = InputSystem::new();
    inputs.set_key_event(5, ButtonState::PRESSED);
    inputs.set_mouse_button_event(MouseButton::RIGHT, ButtonState::PRESSED);
    inputs.set_mouse_move_event(1, 2);
    let snapshot = inputs.get_input();
    assert_eq!(snapshot.mouse_button_right, ButtonState::PRESSED);
    assert_eq!(snapshot.mouse_button_left, ButtonState::RELEASED);
    assert_eq!(snapshot.mouse_motion_delta_x, 1);
    assert_eq!(snapshot.mouse_motion_delta_y, 2);
    assert_eq!(snapshot.keys.len(), 1);
}
