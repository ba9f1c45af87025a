//! The input snapshot.
//!
//! The window collaborator pumps discrete events once per frame (key up and
//! down, mouse buttons, mouse motion) and feeds them in here as plain
//! values: a key is its key code, a motion delta is a double-precision bit
//! pattern.  Behaviors read the resulting per-key and per-button state
//! during their update.

use vstd::prelude::*;

use crate::component_map::ComponentMap;

verus! {

/// A key, by its key code.
pub type Key = u32;

/// A mouse button the runtime tracks; buttons outside these three are
/// dropped by the window collaborator.
#[derive(Debug, Copy, Clone, PartialEq, Eq, Structural)]
pub enum MouseButton {
    LEFT,
    RIGHT,
    MIDDLE,
}

/// Whether a key or button is currently held.
#[derive(Debug, Copy, Clone, PartialEq, Eq, Structural)]
pub enum ButtonState {
    PRESSED,
    RELEASED,
}

impl ButtonState {
    pub fn pressed(&mut self)
        ensures
            *final(self) == ButtonState::PRESSED,
    {
        *self = ButtonState::PRESSED;
    }

    pub fn released(&mut self)
        ensures
            *final(self) == ButtonState::RELEASED,
    {
        *self = ButtonState::RELEASED;
    }
}

/// A read-only copy of the input state at one point in a frame.
#[derive(Debug)]
pub struct Input {
    pub keys: ComponentMap<ButtonState>,
    pub mouse_button_left: ButtonState,
    pub mouse_button_right: ButtonState,
    pub mouse_button_middle: ButtonState,
    pub mouse_motion_delta_x: u64,
    pub mouse_motion_delta_y: u64,
}

/// Tracks the pressed state of every key and mouse button and the last
/// mouse motion delta.
#[derive(Debug)]
pub struct InputSystem {
    pub keys_state: ComponentMap<ButtonState>,
    pub mouse_left: ButtonState,
    pub mouse_right: ButtonState,
    pub mouse_middle: ButtonState,
    pub mouse_x_delta: u64,
    pub mouse_y_delta: u64,
}

impl InputSystem {
    /// The key map has no duplicate keys.
    pub open spec fn wf(&self) -> bool {
        self.keys_state.wf()
    }

    /// The state of a key: released unless an event said otherwise.
    pub open spec fn spec_key_state(&self, key: Key) -> ButtonState {
        match self.keys_state.spec_get(key) {
            Some(s) => s,
            None => ButtonState::RELEASED,
        }
    }

    /// The state of a mouse button.
    pub open spec fn spec_button_state(&self, button: MouseButton) -> ButtonState {
        match button {
            MouseButton::LEFT => self.mouse_left,
            MouseButton::RIGHT => self.mouse_right,
            MouseButton::MIDDLE => self.mouse_middle,
        }
    }

    /// No keys seen, all buttons released, no motion.
    pub fn new() -> (s: InputSystem)
        ensures
            s.wf(),
            s.keys_state.spec_len() == 0,
            forall|k: Key| s.spec_key_state(k) == ButtonState::RELEASED,
            s.mouse_left == ButtonState::RELEASED,
            s.mouse_right == ButtonState::RELEASED,
            s.mouse_middle == ButtonState::RELEASED,
            s.mouse_x_delta == 0,
            s.mouse_y_delta == 0,
    {
        InputSystem {
            keys_state: ComponentMap::new(),
            mouse_left: ButtonState::RELEASED,
            mouse_right: ButtonState::RELEASED,
            mouse_middle: ButtonState::RELEASED,
            mouse_x_delta: 0,
            mouse_y_delta: 0,
        }
    }

    /// Records a key event.
    pub fn set_key_event(&mut self, key: Key, state: ButtonState)
        requires
            old(self).wf(),
        ensures
            final(self).wf(),
            final(self).spec_key_state(key) == state,
            forall|k: Key|
                k != key ==> #[trigger] final(self).spec_key_state(k) == old(self).spec_key_state(
                    k,
                ),
            final(self).mouse_left == old(self).mouse_left,
            final(self).mouse_right == old(self).mouse_right,
            final(self).mouse_middle == old(self).mouse_middle,
            final(self).mouse_x_delta == old(self).mouse_x_delta,
            final(self).mouse_y_delta == old(self).mouse_y_delta,
    {
        self.keys_state.set(key, state);
    }

    /// Records a mouse button event.
    pub fn set_mouse_button_event(&mut self, button: MouseButton, state: ButtonState)
        ensures
            final(self).spec_button_state(button) == state,
            forall|b: MouseButton|
                b != button ==> #[trigger] final(self).spec_button_state(b) == old(
                    self,
                ).spec_button_state(b),
            final(self).keys_state == old(self).keys_state,
            final(self).mouse_x_delta == old(self).mouse_x_delta,
            final(self).mouse_y_delta == old(self).mouse_y_delta,
    {
        match button {
            MouseButton::LEFT => self.mouse_left = state,
            MouseButton::RIGHT => self.mouse_right = state,
            MouseButton::MIDDLE => self.mouse_middle = state,
        }
    }

    /// Records the last mouse motion delta; components are double-precision
    /// bit patterns.
    pub fn set_mouse_move_event(&mut self, x_delta: u64, y_delta: u64)
        ensures
            final(self).mouse_x_delta == x_delta,
            final(self).mouse_y_delta == y_delta,
            final(self).keys_state == old(self).keys_state,
            final(self).mouse_left == old(self).mouse_left,
            final(self).mouse_right == old(self).mouse_right,
            final(self).mouse_middle == old(self).mouse_middle,
    {
        self.mouse_x_delta = x_delta;
        self.mouse_y_delta = y_delta;
    }

    /// The state of a key: released unless an event said otherwise.
    pub fn is_key_pressed(&self, key: Key) -> (r: ButtonState)
        requires
            self.wf(),
        ensures
            r == self.spec_key_state(key),
    {
        match self.keys_state.get(key) {
            Some(state) => *state,
            None => ButtonState::RELEASED,
        }
    }

    /// The state of a mouse button.
    pub fn is_mouse_button_pressed(&self, button: MouseButton) -> (r: ButtonState)
        ensures
            r == self.spec_button_state(button),
    {
        match button {
            MouseButton::LEFT => self.mouse_left,
            MouseButton::RIGHT => self.mouse_right,
            MouseButton::MIDDLE => self.mouse_middle,
        }
    }

    /// The last mouse motion delta, as double-precision bit patterns.
    pub fn get_mouse_motion(&self) -> (r: (u64, u64))
        ensures
            r.0 == self.mouse_x_delta,
            r.1 == self.mouse_y_delta,
    {
        (self.mouse_x_delta, self.mouse_y_delta)
    }

    /// A read-only copy of the current input state.
    pub fn get_input(&self) -> (r: Input)
        ensures
            r.keys.entries_seq() == self.keys_state.entries_seq(),
            r.mouse_button_left == self.mouse_left,
            r.mouse_button_right == self.mouse_right,
            r.mouse_button_middle == self.mouse_middle,
            r.mouse_motion_delta_x == self.mouse_x_delta,
            r.mouse_motion_delta_y == self.mouse_y_delta,
    {
        Input {
            keys: self.keys_state.duplicate(),
            mouse_button_left: self.mouse_left,
            mouse_button_right: self.mouse_right,
            mouse_button_middle: self.mouse_middle,
            mouse_motion_delta_x: self.mouse_x_delta,
            mouse_motion_delta_y: self.mouse_y_delta,
        }
    }
}

} // verus!
