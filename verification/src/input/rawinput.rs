//! Windows raw input, in plain values: what its records mean as input
//! events.
//!
//! Registering for raw input and running the message loop is the caller's
//! business. It hands each record it receives, with the time and the
//! place of the cursor, to [`RawInputTranslator::mouse`] or
//! [`RawInputTranslator::keyboard`].

use vstd::prelude::*;

use crate::input::events::{
    InputEvent,
    KeyboardEvent,
    MouseButtonEvent,
    MouseMoveEvent,
    MouseScrollEvent,
};
use crate::input::evdev::wrapped;
use crate::input::keymap_windows::{spec_windows_vk_to_hid, windows_vk_to_hid};
use crate::protocol::message::{Modifiers, MouseButton};

verus! {

/// The record is of a mouse.
pub const RIM_TYPEMOUSE: u32 = 0;

/// The record is of a keyboard.
pub const RIM_TYPEKEYBOARD: u32 = 1;

/// The movement of a mouse record is relative.
pub const MOUSE_MOVE_RELATIVE: u16 = 0x00;

pub const RI_MOUSE_LEFT_BUTTON_DOWN: u16 = 0x0001;

pub const RI_MOUSE_LEFT_BUTTON_UP: u16 = 0x0002;

pub const RI_MOUSE_RIGHT_BUTTON_DOWN: u16 = 0x0004;

pub const RI_MOUSE_RIGHT_BUTTON_UP: u16 = 0x0008;

pub const RI_MOUSE_MIDDLE_BUTTON_DOWN: u16 = 0x0010;

pub const RI_MOUSE_MIDDLE_BUTTON_UP: u16 = 0x0020;

pub const RI_MOUSE_BUTTON_4_DOWN: u16 = 0x0040;

pub const RI_MOUSE_BUTTON_4_UP: u16 = 0x0080;

pub const RI_MOUSE_BUTTON_5_DOWN: u16 = 0x0100;

pub const RI_MOUSE_BUTTON_5_UP: u16 = 0x0200;

pub const RI_MOUSE_WHEEL: u16 = 0x0400;

pub const RI_MOUSE_HWHEEL: u16 = 0x0800;

/// The key of a keyboard record went up.
pub const RI_KEY_BREAK: u16 = 1;

/// The wheel data of one click of the wheel.
pub const WHEEL_DELTA: i32 = 120;

/// A mouse record.
#[derive(Debug, Clone, Copy, PartialEq, Eq, Structural)]
pub struct RawMouse {
    /// How the movement is to be read.
    pub flags: u16,
    /// Which buttons changed, and whether a wheel turned.
    pub button_flags: u16,
    /// The turn of the wheel, as a signed number in 16 bits.
    pub button_data: u16,
    /// The movement.
    pub last_x: i32,
    pub last_y: i32,
}

/// A keyboard record.
#[derive(Debug, Clone, Copy, PartialEq, Eq, Structural)]
pub struct RawKeyboard {
    /// The virtual key code.
    pub vkey: u16,
    /// Whether the key went up, among other things.
    pub flags: u16,
    /// The scan code.
    pub make_code: u16,
}

/// The clicks of the wheel that wheel data stands for: the data read as a
/// signed number, over the data of one click, rounded towards zero.
pub open spec fn spec_wheel_clicks(data: u16) -> i32 {
    let signed: int = if data >= 0x8000 {
        data - 0x1_0000
    } else {
        data as int
    };
    if signed >= 0 {
        (signed / (WHEEL_DELTA as int)) as i32
    } else {
        (-((-signed) / (WHEEL_DELTA as int))) as i32
    }
}

fn wheel_clicks(data: u16) -> (clicks: i32)
    ensures
        clicks == spec_wheel_clicks(data),
{
    let signed: i32 = if data >= 0x8000 {
        data as i32 - 0x1_0000
    } else {
        data as i32
    };
    if signed >= 0 {
        signed / WHEEL_DELTA
    } else {
        -((-signed) / WHEEL_DELTA)
    }
}

/// The event of a button that changed, if the bit of its change is among
/// the flags.
pub open spec fn button_event(
    flags: u16,
    bit: u16,
    timestamp: u64,
    button: MouseButton,
    pressed: bool,
    cursor: (i32, i32),
) -> Seq<InputEvent> {
    if flags & bit != 0 {
        seq![
            InputEvent::MouseButton(
                MouseButtonEvent { timestamp, button, pressed, x: cursor.0, y: cursor.1 },
            ),
        ]
    } else {
        Seq::empty()
    }
}

/// The events of one button: its press, then its release, each if its
/// bit is among the flags.
pub open spec fn one_button_events(
    flags: u16,
    down: u16,
    up: u16,
    timestamp: u64,
    button: MouseButton,
    cursor: (i32, i32),
) -> Seq<InputEvent> {
    button_event(flags, down, timestamp, button, true, cursor) + button_event(
        flags,
        up,
        timestamp,
        button,
        false,
        cursor,
    )
}

/// The events of the buttons that changed, from the left button to the
/// fifth, a press before a release.
pub open spec fn button_events(flags: u16, timestamp: u64, cursor: (i32, i32)) -> Seq<InputEvent> {
    one_button_events(
        flags,
        RI_MOUSE_LEFT_BUTTON_DOWN,
        RI_MOUSE_LEFT_BUTTON_UP,
        timestamp,
        MouseButton::Left,
        cursor,
    ) + one_button_events(
        flags,
        RI_MOUSE_RIGHT_BUTTON_DOWN,
        RI_MOUSE_RIGHT_BUTTON_UP,
        timestamp,
        MouseButton::Right,
        cursor,
    ) + one_button_events(
        flags,
        RI_MOUSE_MIDDLE_BUTTON_DOWN,
        RI_MOUSE_MIDDLE_BUTTON_UP,
        timestamp,
        MouseButton::Middle,
        cursor,
    ) + one_button_events(
        flags,
        RI_MOUSE_BUTTON_4_DOWN,
        RI_MOUSE_BUTTON_4_UP,
        timestamp,
        MouseButton::Button4,
        cursor,
    ) + one_button_events(
        flags,
        RI_MOUSE_BUTTON_5_DOWN,
        RI_MOUSE_BUTTON_5_UP,
        timestamp,
        MouseButton::Button5,
        cursor,
    )
}

/// The scroll events of the wheels that turned, the vertical wheel first.
pub open spec fn wheel_events(record: RawMouse, timestamp: u64) -> Seq<InputEvent> {
    let clicks = spec_wheel_clicks(record.button_data);
    let vertical = if record.button_flags & RI_MOUSE_WHEEL != 0 {
        seq![InputEvent::MouseScroll(MouseScrollEvent { timestamp, dx: 0, dy: clicks })]
    } else {
        Seq::empty()
    };
    let horizontal = if record.button_flags & RI_MOUSE_HWHEEL != 0 {
        seq![InputEvent::MouseScroll(MouseScrollEvent { timestamp, dx: clicks, dy: 0 })]
    } else {
        Seq::empty()
    };
    vertical + horizontal
}

/// Whether a mouse record holds relative movement that is not nothing.
pub open spec fn moves(record: RawMouse) -> bool {
    record.flags == MOUSE_MOVE_RELATIVE && (record.last_x != 0 || record.last_y != 0)
}

/// The modifiers after the key with a virtual key code has gone down or
/// up: shift, ctrl, alt and meta are held while one of their keys is
/// down.
pub open spec fn spec_update_modifiers(modifiers: Modifiers, vkey: u16, pressed: bool) -> Modifiers {
    if vkey == 0xA0 || vkey == 0xA1 || vkey == 0x10 {
        Modifiers { shift: pressed, ..modifiers }
    } else if vkey == 0xA2 || vkey == 0xA3 || vkey == 0x11 {
        Modifiers { ctrl: pressed, ..modifiers }
    } else if vkey == 0xA4 || vkey == 0xA5 || vkey == 0x12 {
        Modifiers { alt: pressed, ..modifiers }
    } else if vkey == 0x5B || vkey == 0x5C {
        Modifiers { meta: pressed, ..modifiers }
    } else {
        modifiers
    }
}

/// Turns raw input records into input events.
#[derive(Debug, Clone, Copy, PartialEq, Eq, Structural)]
pub struct RawInputTranslator {
    /// The sum of all relative movement so far, wrapping around.
    pub x: i32,
    pub y: i32,
    /// The modifiers that are held.
    pub modifiers: Modifiers,
}

impl RawInputTranslator {
    /// The state after a mouse record.
    pub open spec fn after_mouse(self, record: RawMouse) -> RawInputTranslator {
        if moves(record) {
            RawInputTranslator {
                x: wrapped(self.x, record.last_x),
                y: wrapped(self.y, record.last_y),
                ..self
            }
        } else {
            self
        }
    }

    /// The input events of a mouse record received at `timestamp` with
    /// the cursor at `cursor`: the movement, where it is relative and not
    /// nothing; then the buttons that changed; then the wheels that
    /// turned.
    pub open spec fn mouse_events(record: RawMouse, timestamp: u64, cursor: (i32, i32)) -> Seq<
        InputEvent,
    > {
        let movement = if moves(record) {
            seq![
                InputEvent::MouseMove(
                    MouseMoveEvent {
                        timestamp,
                        x: Some(cursor.0),
                        y: Some(cursor.1),
                        dx: record.last_x,
                        dy: record.last_y,
                    },
                ),
            ]
        } else {
            Seq::empty()
        };
        movement + button_events(record.button_flags, timestamp, cursor) + wheel_events(
            record,
            timestamp,
        )
    }

    /// The state after a keyboard record.
    pub open spec fn after_keyboard(self, record: RawKeyboard) -> RawInputTranslator {
        RawInputTranslator {
            modifiers: spec_update_modifiers(
                self.modifiers,
                record.vkey,
                record.flags & RI_KEY_BREAK == 0,
            ),
            ..self
        }
    }

    /// The input event of a keyboard record received at `timestamp`: the
    /// key, under its USB HID usage code, with the modifiers held once the
    /// key has gone down or up.
    pub open spec fn keyboard_event(self, record: RawKeyboard, timestamp: u64) -> InputEvent {
        InputEvent::Keyboard(
            KeyboardEvent {
                timestamp,
                keycode: spec_windows_vk_to_hid(record.vkey as u32),
                scancode: record.make_code as u32,
                pressed: record.flags & RI_KEY_BREAK == 0,
                character: None,
                modifiers: self.after_keyboard(record).modifiers,
            },
        )
    }

    /// A translator with no movement summed and no modifier held.
    pub fn new() -> (translator: RawInputTranslator)
        ensures
            translator == (RawInputTranslator { x: 0, y: 0, modifiers: Modifiers::spec_from_bits(0) }),
    {
        RawInputTranslator { x: 0, y: 0, modifiers: Modifiers::from_bits(0) }
    }

    /// Take in a mouse record; what comes back are the input events that
    /// it gives rise to, in their order.
    pub fn mouse(&mut self, record: &RawMouse, timestamp: u64, cursor: (i32, i32)) -> (events: Vec<
        InputEvent,
    >)
        ensures
            *final(self) == old(self).after_mouse(*record),
            events@ == RawInputTranslator::mouse_events(*record, timestamp, cursor),
    {
        let mut events: Vec<InputEvent> = Vec::new();

        // Handle relative mouse movement
        if record.flags == MOUSE_MOVE_RELATIVE {
            let dx = record.last_x;
            let dy = record.last_y;
            if dx != 0 || dy != 0 {
                // Update internal state
                self.x = self.x.wrapping_add(dx);
                self.y = self.y.wrapping_add(dy);
                events.push(
                    InputEvent::MouseMove(
                        MouseMoveEvent { timestamp, x: Some(cursor.0), y: Some(cursor.1), dx, dy },
                    ),
                );
            }
        }
        push_buttons(&mut events, record.button_flags, timestamp, cursor);
        push_wheels(&mut events, record, timestamp);
        assert(events@ =~= RawInputTranslator::mouse_events(*record, timestamp, cursor));
        events
    }

    /// Take in a keyboard record; what comes back is its input event.
    pub fn keyboard(&mut self, record: &RawKeyboard, timestamp: u64) -> (event: InputEvent)
        ensures
            *final(self) == old(self).after_keyboard(*record),
            event == old(self).keyboard_event(*record, timestamp),
    {
        let vk = record.vkey;
        let pressed = record.flags & RI_KEY_BREAK == 0;
        let hid_keycode = windows_vk_to_hid(vk as u32);

        // Update modifier state
        if vk == 0xA0 || vk == 0xA1 || vk == 0x10 {
            self.modifiers.shift = pressed;
        } else if vk == 0xA2 || vk == 0xA3 || vk == 0x11 {
            self.modifiers.ctrl = pressed;
        } else if vk == 0xA4 || vk == 0xA5 || vk == 0x12 {
            self.modifiers.alt = pressed;
        } else if vk == 0x5B || vk == 0x5C {
            self.modifiers.meta = pressed;
        }
        InputEvent::Keyboard(
            KeyboardEvent {
                timestamp,
                keycode: hid_keycode,
                scancode: record.make_code as u32,
                pressed,
                character: None,
                modifiers: self.modifiers,
            },
        )
    }
}

/// Appends the events of the buttons that changed.
fn push_buttons(events: &mut Vec<InputEvent>, flags: u16, timestamp: u64, cursor: (i32, i32))
    ensures
        final(events)@ == old(events)@ + button_events(flags, timestamp, cursor),
{
    let ghost start = events@;
    let ghost left = one_button_events(
        flags,
        RI_MOUSE_LEFT_BUTTON_DOWN,
        RI_MOUSE_LEFT_BUTTON_UP,
        timestamp,
        MouseButton::Left,
        cursor,
    );
    let ghost right = one_button_events(
        flags,
        RI_MOUSE_RIGHT_BUTTON_DOWN,
        RI_MOUSE_RIGHT_BUTTON_UP,
        timestamp,
        MouseButton::Right,
        cursor,
    );
    let ghost middle = one_button_events(
        flags,
        RI_MOUSE_MIDDLE_BUTTON_DOWN,
        RI_MOUSE_MIDDLE_BUTTON_UP,
        timestamp,
        MouseButton::Middle,
        cursor,
    );
    let ghost fourth = one_button_events(
        flags,
        RI_MOUSE_BUTTON_4_DOWN,
        RI_MOUSE_BUTTON_4_UP,
        timestamp,
        MouseButton::Button4,
        cursor,
    );
    let ghost fifth = one_button_events(
        flags,
        RI_MOUSE_BUTTON_5_DOWN,
        RI_MOUSE_BUTTON_5_UP,
        timestamp,
        MouseButton::Button5,
        cursor,
    );
    push_one_button(
        events,
        flags,
        RI_MOUSE_LEFT_BUTTON_DOWN,
        RI_MOUSE_LEFT_BUTTON_UP,
        timestamp,
        MouseButton::Left,
        cursor,
    );
    push_one_button(
        events,
        flags,
        RI_MOUSE_RIGHT_BUTTON_DOWN,
        RI_MOUSE_RIGHT_BUTTON_UP,
        timestamp,
        MouseButton::Right,
        cursor,
    );
    assert(events@ == start + left + right);
    let ghost two = events@;
    push_one_button(
        events,
        flags,
        RI_MOUSE_MIDDLE_BUTTON_DOWN,
        RI_MOUSE_MIDDLE_BUTTON_UP,
        timestamp,
        MouseButton::Middle,
        cursor,
    );
    push_one_button(
        events,
        flags,
        RI_MOUSE_BUTTON_4_DOWN,
        RI_MOUSE_BUTTON_4_UP,
        timestamp,
        MouseButton::Button4,
        cursor,
    );
    push_one_button(
        events,
        flags,
        RI_MOUSE_BUTTON_5_DOWN,
        RI_MOUSE_BUTTON_5_UP,
        timestamp,
        MouseButton::Button5,
        cursor,
    );
    assert(events@ == two + middle + fourth + fifth);
    proof {
        lemma_sum_of_five(start, left, right, middle, fourth, fifth);
    }
}

/// Sequences joined one after the other are joined however they are
/// grouped.
proof fn lemma_sum_of_five(
    start: Seq<InputEvent>,
    a: Seq<InputEvent>,
    b: Seq<InputEvent>,
    c: Seq<InputEvent>,
    d: Seq<InputEvent>,
    e: Seq<InputEvent>,
)
    ensures
        start + a + b + c + d + e == start + (a + b + c + d + e),
{
    assert(start + a + b + c + d + e =~= start + (a + b + c + d + e));
}

/// Appends the events of one button.
fn push_one_button(
    events: &mut Vec<InputEvent>,
    flags: u16,
    down: u16,
    up: u16,
    timestamp: u64,
    button: MouseButton,
    cursor: (i32, i32),
)
    ensures
        final(events)@ == old(events)@ + one_button_events(flags, down, up, timestamp, button, cursor),
{
    push_button(events, flags, down, timestamp, button, true, cursor);
    push_button(events, flags, up, timestamp, button, false, cursor);
    assert(events@ =~= old(events)@ + one_button_events(flags, down, up, timestamp, button, cursor));
}

/// Appends the scroll events of the wheels that turned.
fn push_wheels(events: &mut Vec<InputEvent>, record: &RawMouse, timestamp: u64)
    ensures
        final(events)@ == old(events)@ + wheel_events(*record, timestamp),
{
    if record.button_flags & RI_MOUSE_WHEEL != 0 {
        let delta = wheel_clicks(record.button_data);
        events.push(InputEvent::MouseScroll(MouseScrollEvent { timestamp, dx: 0, dy: delta }));
    }
    if record.button_flags & RI_MOUSE_HWHEEL != 0 {
        let delta = wheel_clicks(record.button_data);
        events.push(InputEvent::MouseScroll(MouseScrollEvent { timestamp, dx: delta, dy: 0 }));
    }
    assert(events@ =~= old(events)@ + wheel_events(*record, timestamp));
}

fn push_button(
    events: &mut Vec<InputEvent>,
    flags: u16,
    bit: u16,
    timestamp: u64,
    button: MouseButton,
    pressed: bool,
    cursor: (i32, i32),
)
    ensures
        final(events)@ == old(events)@ + button_event(flags, bit, timestamp, button, pressed, cursor),
{
    if flags & bit != 0 {
        events.push(
            InputEvent::MouseButton(
                MouseButtonEvent { timestamp, button, pressed, x: cursor.0, y: cursor.1 },
            ),
        );
    }
    assert(events@ =~= old(events)@ + button_event(flags, bit, timestamp, button, pressed, cursor));
}

} // verus!
