//! The macOS event tap, in plain values: what its events mean as input
//! events, and the state that a capture keeps of mouse and keyboard.
//!
//! Creating the tap and running its loop is the caller's business. It
//! hands each event that the tap delivers to
//! [`QuartzTranslator::translate`].

use vstd::prelude::*;

use crate::input::events::{
    InputEvent,
    KeyboardEvent,
    KeyboardState,
    MouseButtonEvent,
    MouseMoveEvent,
    MouseScrollEvent,
    MouseState,
};
use crate::input::keymap_macos::{macos_to_hid_keycode, spec_macos_to_hid_keycode};
use crate::protocol::message::{Modifiers, MouseButton};

verus! {

broadcast use vstd::std_specs::hash::group_hash_axioms;

// The bits of an event's flags that stand for modifiers.
pub const FLAG_ALPHA_SHIFT: u64 = 0x0001_0000;

pub const FLAG_SHIFT: u64 = 0x0002_0000;

pub const FLAG_CONTROL: u64 = 0x0004_0000;

pub const FLAG_ALTERNATE: u64 = 0x0008_0000;

pub const FLAG_COMMAND: u64 = 0x0010_0000;

pub const FLAG_NUMERIC_PAD: u64 = 0x0020_0000;

/// The modifiers that the flags of an event hold.
pub open spec fn spec_flags_to_modifiers(flags: u64) -> Modifiers {
    Modifiers {
        shift: flags & FLAG_SHIFT != 0,
        ctrl: flags & FLAG_CONTROL != 0,
        alt: flags & FLAG_ALTERNATE != 0,
        meta: flags & FLAG_COMMAND != 0,
        caps_lock: flags & FLAG_ALPHA_SHIFT != 0,
        num_lock: flags & FLAG_NUMERIC_PAD != 0,
    }
}

/// The modifiers that the flags of an event hold.
#[verifier::when_used_as_spec(spec_flags_to_modifiers)]
pub fn flags_to_modifiers(flags: u64) -> (modifiers: Modifiers)
    ensures
        modifiers == spec_flags_to_modifiers(flags),
{
    Modifiers {
        shift: flags & FLAG_SHIFT != 0,
        ctrl: flags & FLAG_CONTROL != 0,
        alt: flags & FLAG_ALTERNATE != 0,
        meta: flags & FLAG_COMMAND != 0,
        caps_lock: flags & FLAG_ALPHA_SHIFT != 0,
        num_lock: flags & FLAG_NUMERIC_PAD != 0,
    }
}

/// The kinds of event that the tap delivers.
#[derive(Debug, Clone, Copy, PartialEq, Eq, Structural)]
pub enum QuartzEventKind {
    MouseMoved,
    LeftMouseDragged,
    RightMouseDragged,
    OtherMouseDragged,
    LeftMouseDown,
    LeftMouseUp,
    RightMouseDown,
    RightMouseUp,
    OtherMouseDown,
    OtherMouseUp,
    ScrollWheel,
    KeyDown,
    KeyUp,
    FlagsChanged,
    /// Any other kind.
    Other,
}

/// An event of the tap, with the fields that matter read out of it.
#[derive(Debug, Clone, Copy, PartialEq, Eq, Structural)]
pub struct QuartzEvent {
    pub kind: QuartzEventKind,
    /// The time of the event in microseconds.
    pub timestamp: u64,
    /// Where the cursor is.
    pub x: i32,
    pub y: i32,
    /// The event's flags.
    pub flags: u64,
    /// Mouse movement since the last event.
    pub delta_x: i32,
    pub delta_y: i32,
    /// The number of the button of an event of another button.
    pub button_number: i64,
    /// Scrolling along the first axis, the vertical one, and the second.
    pub scroll_axis_1: i32,
    pub scroll_axis_2: i32,
    /// The virtual keycode of a key event.
    pub keycode: u32,
}

/// The button with a number, where the event is of neither the left nor
/// the right button: numbers 3 and 4 are the fourth and fifth button,
/// every other number is the middle one.
pub open spec fn spec_other_button(number: i64) -> MouseButton {
    if number == 3 {
        MouseButton::Button4
    } else if number == 4 {
        MouseButton::Button5
    } else {
        MouseButton::Middle
    }
}

fn other_button(number: i64) -> (button: MouseButton)
    ensures
        button == spec_other_button(number),
{
    if number == 3 {
        MouseButton::Button4
    } else if number == 4 {
        MouseButton::Button5
    } else {
        MouseButton::Middle
    }
}

/// The button that a button event is about, and whether it went down.
pub open spec fn spec_button_change(event: QuartzEvent) -> Option<(MouseButton, bool)> {
    match event.kind {
        QuartzEventKind::LeftMouseDown => Some((MouseButton::Left, true)),
        QuartzEventKind::LeftMouseUp => Some((MouseButton::Left, false)),
        QuartzEventKind::RightMouseDown => Some((MouseButton::Right, true)),
        QuartzEventKind::RightMouseUp => Some((MouseButton::Right, false)),
        QuartzEventKind::OtherMouseDown => Some((spec_other_button(event.button_number), true)),
        QuartzEventKind::OtherMouseUp => Some((spec_other_button(event.button_number), false)),
        _ => None,
    }
}

fn button_change(event: &QuartzEvent) -> (change: Option<(MouseButton, bool)>)
    ensures
        change == spec_button_change(*event),
{
    match event.kind {
        QuartzEventKind::LeftMouseDown => Some((MouseButton::Left, true)),
        QuartzEventKind::LeftMouseUp => Some((MouseButton::Left, false)),
        QuartzEventKind::RightMouseDown => Some((MouseButton::Right, true)),
        QuartzEventKind::RightMouseUp => Some((MouseButton::Right, false)),
        QuartzEventKind::OtherMouseDown => Some((other_button(event.button_number), true)),
        QuartzEventKind::OtherMouseUp => Some((other_button(event.button_number), false)),
        _ => None,
    }
}

/// What a capture knows of mouse and keyboard, as plain values.
pub struct QuartzView {
    /// Where the cursor is.
    pub x: i32,
    pub y: i32,
    /// Which buttons are down, by the buttons' codes.
    pub buttons: Seq<bool>,
    /// The USB HID usage codes of the keys that are down.
    pub pressed_keys: Set<u32>,
    pub modifiers: Modifiers,
}

impl QuartzView {
    /// The state after an event, and the input event that it gives rise
    /// to, if any.
    ///
    /// A movement or a drag puts the cursor where the event is and gives
    /// a movement. A button event records the button and gives a button
    /// event at the place of the event. Scrolling gives a scroll event.
    /// A key event records the key, under its USB HID usage code, and the
    /// modifiers of the event's flags, and gives a keyboard event. A
    /// change of flags records the modifiers and gives nothing.
    pub open spec fn spec_translate(self, event: QuartzEvent) -> (QuartzView, Option<InputEvent>) {
        let timestamp = event.timestamp;
        let modifiers = spec_flags_to_modifiers(event.flags);
        match event.kind {
            QuartzEventKind::MouseMoved
            | QuartzEventKind::LeftMouseDragged
            | QuartzEventKind::RightMouseDragged
            | QuartzEventKind::OtherMouseDragged => (
                QuartzView { x: event.x, y: event.y, ..self },
                Some(
                    InputEvent::MouseMove(
                        MouseMoveEvent {
                            timestamp,
                            x: Some(event.x),
                            y: Some(event.y),
                            dx: event.delta_x,
                            dy: event.delta_y,
                        },
                    ),
                ),
            ),
            QuartzEventKind::LeftMouseDown
            | QuartzEventKind::LeftMouseUp
            | QuartzEventKind::RightMouseDown
            | QuartzEventKind::RightMouseUp
            | QuartzEventKind::OtherMouseDown
            | QuartzEventKind::OtherMouseUp => {
                let change = spec_button_change(event)->Some_0;
                (
                    QuartzView {
                        buttons: self.buttons.update(change.0.spec_code() as int, change.1),
                        ..self
                    },
                    Some(
                        InputEvent::MouseButton(
                            MouseButtonEvent {
                                timestamp,
                                button: change.0,
                                pressed: change.1,
                                x: event.x,
                                y: event.y,
                            },
                        ),
                    ),
                )
            },
            QuartzEventKind::ScrollWheel => (
                self,
                Some(
                    InputEvent::MouseScroll(
                        MouseScrollEvent {
                            timestamp,
                            dx: event.scroll_axis_2,
                            dy: event.scroll_axis_1,
                        },
                    ),
                ),
            ),
            QuartzEventKind::KeyDown | QuartzEventKind::KeyUp => {
                let pressed = event.kind == QuartzEventKind::KeyDown;
                let keycode = spec_macos_to_hid_keycode(event.keycode);
                (
                    QuartzView {
                        pressed_keys: if pressed {
                            self.pressed_keys.insert(keycode)
                        } else {
                            self.pressed_keys.remove(keycode)
                        },
                        modifiers,
                        ..self
                    },
                    Some(
                        InputEvent::Keyboard(
                            KeyboardEvent {
                                timestamp,
                                keycode,
                                scancode: event.keycode,
                                pressed,
                                character: None,
                                modifiers,
                            },
                        ),
                    ),
                )
            },
            QuartzEventKind::FlagsChanged => (QuartzView { modifiers, ..self }, None),
            QuartzEventKind::Other => (self, None),
        }
    }
}

/// Whether an event goes on to the applications of the local system: not
/// while input is suppressed.
pub fn passes_on(suppressing: bool) -> (passes: bool)
    ensures
        passes == !suppressing,
{
    !suppressing
}

/// Turns the events of the tap into input events, and keeps the state of
/// mouse and keyboard.
#[derive(Debug)]
pub struct QuartzTranslator {
    pub mouse_state: MouseState,
    pub keyboard_state: KeyboardState,
}

impl View for QuartzTranslator {
    type V = QuartzView;

    open spec fn view(&self) -> QuartzView {
        QuartzView {
            x: self.mouse_state.x,
            y: self.mouse_state.y,
            buttons: self.mouse_state.buttons@,
            pressed_keys: self.keyboard_state.pressed_keys@,
            modifiers: self.keyboard_state.modifiers,
        }
    }
}

impl QuartzTranslator {
    /// A translator that knows of no button or key that is down.
    pub fn new() -> (translator: QuartzTranslator)
        ensures
            translator@ == (QuartzView {
                x: 0,
                y: 0,
                buttons: seq![false, false, false, false, false],
                pressed_keys: Set::empty(),
                modifiers: Modifiers::spec_from_bits(0),
            }),
    {
        QuartzTranslator { mouse_state: MouseState::new(), keyboard_state: KeyboardState::new() }
    }

    /// Take in an event of the tap; what comes back is the input event
    /// that it gives rise to, if any.
    pub fn translate(&mut self, event: &QuartzEvent) -> (input: Option<InputEvent>)
        ensures
            (final(self)@, input) == old(self)@.spec_translate(*event),
    {
        let timestamp = event.timestamp;
        let modifiers = flags_to_modifiers(event.flags);
        match event.kind {
            QuartzEventKind::MouseMoved
            | QuartzEventKind::LeftMouseDragged
            | QuartzEventKind::RightMouseDragged
            | QuartzEventKind::OtherMouseDragged => {
                // Update mouse state
                self.mouse_state.x = event.x;
                self.mouse_state.y = event.y;
                Some(
                    InputEvent::MouseMove(
                        MouseMoveEvent {
                            timestamp,
                            x: Some(event.x),
                            y: Some(event.y),
                            dx: event.delta_x,
                            dy: event.delta_y,
                        },
                    ),
                )
            },
            QuartzEventKind::LeftMouseDown
            | QuartzEventKind::LeftMouseUp
            | QuartzEventKind::RightMouseDown
            | QuartzEventKind::RightMouseUp
            | QuartzEventKind::OtherMouseDown
            | QuartzEventKind::OtherMouseUp => {
                match button_change(event) {
                    Some((button, pressed)) => {
                        self.mouse_state.set_button(button, pressed);
                        Some(
                            InputEvent::MouseButton(
                                MouseButtonEvent { timestamp, button, pressed, x: event.x, y: event.y },
                            ),
                        )
                    },
                    None => None,
                }
            },
            QuartzEventKind::ScrollWheel => Some(
                InputEvent::MouseScroll(
                    MouseScrollEvent { timestamp, dx: event.scroll_axis_2, dy: event.scroll_axis_1 },
                ),
            ),
            QuartzEventKind::KeyDown | QuartzEventKind::KeyUp => {
                let pressed = event.kind == QuartzEventKind::KeyDown;
                let hid_keycode = macos_to_hid_keycode(event.keycode);
                if pressed {
                    self.keyboard_state.key_down(hid_keycode);
                } else {
                    self.keyboard_state.key_up(hid_keycode);
                }
                self.keyboard_state.modifiers = modifiers;
                Some(
                    InputEvent::Keyboard(
                        KeyboardEvent {
                            timestamp,
                            keycode: hid_keycode,
                            scancode: event.keycode,
                            pressed,
                            character: None,
                            modifiers,
                        },
                    ),
                )
            },
            QuartzEventKind::FlagsChanged => {
                self.keyboard_state.modifiers = modifiers;
                // Don't send modifier-only events
                None
            },
            QuartzEventKind::Other => None,
        }
    }
}

/// The buttons that a posted mouse event can name.
#[derive(Debug, Clone, Copy, PartialEq, Eq, Structural)]
pub enum QuartzButton {
    Left,
    Right,
    Center,
}

/// The kind of event to post for a button that goes down or up, and the
/// button that the event names: the left and the right button have kinds
/// of their own; every other button goes as another button, the center
/// one.
pub open spec fn spec_button_event(button: MouseButton, pressed: bool) -> (
    QuartzEventKind,
    QuartzButton,
) {
    match button {
        MouseButton::Left => (
            if pressed {
                QuartzEventKind::LeftMouseDown
            } else {
                QuartzEventKind::LeftMouseUp
            },
            QuartzButton::Left,
        ),
        MouseButton::Right => (
            if pressed {
                QuartzEventKind::RightMouseDown
            } else {
                QuartzEventKind::RightMouseUp
            },
            QuartzButton::Right,
        ),
        _ => (
            if pressed {
                QuartzEventKind::OtherMouseDown
            } else {
                QuartzEventKind::OtherMouseUp
            },
            QuartzButton::Center,
        ),
    }
}

/// The kind of event to post for a button that goes down or up, and the
/// button that the event names.
pub fn button_event(button: MouseButton, pressed: bool) -> (posted: (QuartzEventKind, QuartzButton))
    ensures
        posted == spec_button_event(button, pressed),
{
    match (button, pressed) {
        (MouseButton::Left, true) => (QuartzEventKind::LeftMouseDown, QuartzButton::Left),
        (MouseButton::Left, false) => (QuartzEventKind::LeftMouseUp, QuartzButton::Left),
        (MouseButton::Right, true) => (QuartzEventKind::RightMouseDown, QuartzButton::Right),
        (MouseButton::Right, false) => (QuartzEventKind::RightMouseUp, QuartzButton::Right),
        (_, true) => (QuartzEventKind::OtherMouseDown, QuartzButton::Center),
        (_, false) => (QuartzEventKind::OtherMouseUp, QuartzButton::Center),
    }
}

/// 1 where the modifier is held, else 0.
pub open spec fn held(modifier: bool) -> int {
    if modifier {
        1
    } else {
        0
    }
}

/// The flags of a posted key event: the bits of shift, control, alternate
/// and command for the modifiers held; the locks are not posted.
pub open spec fn spec_modifiers_to_flags(modifiers: Modifiers) -> int {
    held(modifiers.shift) * FLAG_SHIFT + held(modifiers.ctrl) * FLAG_CONTROL + held(modifiers.alt)
        * FLAG_ALTERNATE + held(modifiers.meta) * FLAG_COMMAND
}

/// The flags of a posted key event.
pub fn modifiers_to_flags(modifiers: Modifiers) -> (flags: u64)
    ensures
        flags == spec_modifiers_to_flags(modifiers),
{
    let mut flags: u64 = 0;
    if modifiers.shift {
        flags = flags + FLAG_SHIFT;
    }
    if modifiers.ctrl {
        flags = flags + FLAG_CONTROL;
    }
    if modifiers.alt {
        flags = flags + FLAG_ALTERNATE;
    }
    if modifiers.meta {
        flags = flags + FLAG_COMMAND;
    }
    flags
}

/// The flags posted for modifiers read back as those modifiers, without
/// the locks.
pub proof fn lemma_flags_roundtrip(modifiers: Modifiers)
    ensures
        0 <= spec_modifiers_to_flags(modifiers) <= u64::MAX,
        spec_flags_to_modifiers(spec_modifiers_to_flags(modifiers) as u64) == (Modifiers {
            caps_lock: false,
            num_lock: false,
            ..modifiers
        }),
{
    let flags = spec_modifiers_to_flags(modifiers) as u64;
    let s: u64 = if modifiers.shift { 1 } else { 0 };
    let c: u64 = if modifiers.ctrl { 1 } else { 0 };
    let a: u64 = if modifiers.alt { 1 } else { 0 };
    let m: u64 = if modifiers.meta { 1 } else { 0 };
    assert(flags == s * 0x0002_0000 + c * 0x0004_0000 + a * 0x0008_0000 + m * 0x0010_0000);
    assert((flags & 0x0002_0000 != 0) == (s == 1) && (flags & 0x0004_0000 != 0) == (c == 1) && (
    flags & 0x0008_0000 != 0) == (a == 1) && (flags & 0x0010_0000 != 0) == (m == 1) && flags
        & 0x0001_0000 == 0 && flags & 0x0020_0000 == 0) by (bit_vector)
        requires
            flags == s * 0x0002_0000 + c * 0x0004_0000 + a * 0x0008_0000 + m * 0x0010_0000,
            s <= 1,
            c <= 1,
            a <= 1,
            m <= 1,
    ;
}

} // verus!
