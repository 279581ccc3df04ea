//! Input event types.
//!
//! Platform-independent representation of input events.

use std::collections::HashSet;
use vstd::prelude::*;

use crate::protocol::{Modifiers, MouseButton};

verus! {

broadcast use vstd::std_specs::hash::group_hash_axioms;

/// Timestamp for events (microseconds since epoch).
pub type EventTimestamp = u64;

/// A mouse movement event.
#[derive(Debug, Clone, Copy)]
pub struct MouseMoveEvent {
    /// Timestamp of the event.
    pub timestamp: EventTimestamp,
    /// Absolute X position (if available).
    pub x: Option<i32>,
    /// Absolute Y position (if available).
    pub y: Option<i32>,
    /// Relative X movement.
    pub dx: i32,
    /// Relative Y movement.
    pub dy: i32,
}

/// A mouse button event.
#[derive(Debug, Clone, Copy)]
pub struct MouseButtonEvent {
    pub timestamp: EventTimestamp,
    pub button: MouseButton,
    pub pressed: bool,
    /// Current cursor position.
    pub x: i32,
    pub y: i32,
}

/// A mouse scroll event.
#[derive(Debug, Clone, Copy)]
pub struct MouseScrollEvent {
    pub timestamp: EventTimestamp,
    /// Horizontal scroll delta.
    pub dx: i32,
    /// Vertical scroll delta.
    pub dy: i32,
}

/// A keyboard event.
#[derive(Debug, Clone, Copy)]
pub struct KeyboardEvent {
    pub timestamp: EventTimestamp,
    /// Platform-independent keycode (USB HID).
    pub keycode: u32,
    /// Platform-specific scancode.
    pub scancode: u32,
    /// Whether the key is pressed (true) or released (false).
    pub pressed: bool,
    /// Unicode character representation (if applicable).
    pub character: Option<char>,
    /// Current modifier state.
    pub modifiers: Modifiers,
}

/// Union of all input event types.
#[derive(Debug, Clone, Copy)]
pub enum InputEvent {
    MouseMove(MouseMoveEvent),
    MouseButton(MouseButtonEvent),
    MouseScroll(MouseScrollEvent),
    Keyboard(KeyboardEvent),
}

impl InputEvent {
    pub open spec fn spec_timestamp(&self) -> EventTimestamp {
        match *self {
            InputEvent::MouseMove(e) => e.timestamp,
            InputEvent::MouseButton(e) => e.timestamp,
            InputEvent::MouseScroll(e) => e.timestamp,
            InputEvent::Keyboard(e) => e.timestamp,
        }
    }

    /// Get the timestamp of the event.
    #[verifier::when_used_as_spec(spec_timestamp)]
    pub fn timestamp(&self) -> (t: EventTimestamp)
        ensures
            t == self.spec_timestamp(),
    {
        match self {
            InputEvent::MouseMove(e) => e.timestamp,
            InputEvent::MouseButton(e) => e.timestamp,
            InputEvent::MouseScroll(e) => e.timestamp,
            InputEvent::Keyboard(e) => e.timestamp,
        }
    }

    /// Check if this is a mouse event.
    pub fn is_mouse(&self) -> (b: bool)
        ensures
            b == !(*self is Keyboard),
    {
        match self {
            InputEvent::MouseMove(_) | InputEvent::MouseButton(_) | InputEvent::MouseScroll(_) => true,
            InputEvent::Keyboard(_) => false,
        }
    }

    /// Check if this is a keyboard event.
    pub fn is_keyboard(&self) -> (b: bool)
        ensures
            b == (*self is Keyboard),
    {
        match self {
            InputEvent::Keyboard(_) => true,
            _ => false,
        }
    }
}

/// Current state of a mouse.
#[derive(Debug, Clone, Copy)]
pub struct MouseState {
    /// Current X position.
    pub x: i32,
    /// Current Y position.
    pub y: i32,
    /// Button states, indexed by the button's code.
    pub buttons: [bool; 5],
}

impl MouseState {
    /// A mouse at the origin with no button pressed.
    pub fn new() -> (state: MouseState)
        ensures
            state.x == 0,
            state.y == 0,
            state.buttons@ == seq![false, false, false, false, false],
            forall|button: MouseButton| !state.pressed(button),
    {
        let state = MouseState { x: 0, y: 0, buttons: [false, false, false, false, false] };
        assert(state.buttons@ =~= seq![false, false, false, false, false]);
        state
    }

    /// Whether the button is down.
    pub open spec fn pressed(&self, button: MouseButton) -> bool {
        self.buttons@[button.spec_code() as int]
    }

    #[verifier::when_used_as_spec(pressed)]
    pub fn is_button_pressed(&self, button: MouseButton) -> (down: bool)
        ensures
            down == self.pressed(button),
    {
        self.buttons[button.code() as usize]
    }

    pub fn set_button(&mut self, button: MouseButton, pressed: bool)
        ensures
            final(self).x == old(self).x,
            final(self).y == old(self).y,
            final(self).buttons@ == old(self).buttons@.update(button.spec_code() as int, pressed),
            forall|other: MouseButton|
                final(self).pressed(other) == (if other == button {
                    pressed
                } else {
                    old(self).pressed(other)
                }),
    {
        let slot: usize = button.code() as usize;
        self.buttons[slot] = pressed;
    }
}

impl Default for MouseState {
    fn default() -> (state: MouseState)
        ensures
            state.x == 0,
            state.y == 0,
            state.buttons@ == seq![false, false, false, false, false],
            forall|button: MouseButton| !state.pressed(button),
    {
        MouseState::new()
    }
}

/// Current state of the keyboard.
#[derive(Debug)]
pub struct KeyboardState {
    /// Set of currently pressed keycodes.
    pub pressed_keys: HashSet<u32>,
    /// Current modifier state.
    pub modifiers: Modifiers,
}

impl KeyboardState {
    /// A keyboard with no key down and no modifier set.
    pub fn new() -> (state: KeyboardState)
        ensures
            state.pressed_keys@ == Set::<u32>::empty(),
            state.modifiers == Modifiers::spec_from_bits(0),
    {
        KeyboardState { pressed_keys: HashSet::new(), modifiers: Modifiers::from_bits(0) }
    }

    pub fn key_down(&mut self, keycode: u32)
        ensures
            final(self).pressed_keys@ == old(self).pressed_keys@.insert(keycode),
            final(self).modifiers == old(self).modifiers,
    {
        self.pressed_keys.insert(keycode);
    }

    pub fn key_up(&mut self, keycode: u32)
        ensures
            final(self).pressed_keys@ == old(self).pressed_keys@.remove(keycode),
            final(self).modifiers == old(self).modifiers,
    {
        self.pressed_keys.remove(&keycode);
    }

    pub fn is_key_pressed(&self, keycode: u32) -> (down: bool)
        ensures
            down == self.pressed_keys@.contains(keycode),
    {
        self.pressed_keys.contains(&keycode)
    }
}

impl Default for KeyboardState {
    fn default() -> (state: KeyboardState)
        ensures
            state.pressed_keys@ == Set::<u32>::empty(),
            state.modifiers == Modifiers::spec_from_bits(0),
    {
        KeyboardState::new()
    }
}

} // verus!
