//! The Linux input subsystem, in plain values: what its raw events mean as
//! input events, and the raw events that inject a command.
//!
//! Reading the devices and writing to the virtual device is the caller's
//! business. It hands each raw event it has read to
//! [`EvdevTranslator::translate`], and writes the raw events that
//! [`injection_events`] and [`type_char_events`] list.

use vstd::prelude::*;

use crate::control::follower::InjectorCommand;
use crate::input::events::{
    InputEvent,
    KeyboardEvent,
    MouseButtonEvent,
    MouseMoveEvent,
    MouseScrollEvent,
};
use crate::input::keymap_linux::{
    char_to_keycode,
    hid_to_linux_keycode,
    linux_to_hid_keycode,
    spec_char_to_keycode,
    spec_hid_to_linux_keycode,
    spec_linux_to_hid_keycode,
};
use crate::protocol::message::{Modifiers, MouseButton};

verus! {

// Event types
pub const EV_SYN: u16 = 0x00;

pub const EV_KEY: u16 = 0x01;

pub const EV_REL: u16 = 0x02;

pub const EV_ABS: u16 = 0x03;

pub const SYN_REPORT: u16 = 0x00;

// Relative axes
pub const REL_X: u16 = 0x00;

pub const REL_Y: u16 = 0x01;

pub const REL_WHEEL: u16 = 0x08;

pub const REL_HWHEEL: u16 = 0x06;

// Absolute axes
pub const ABS_X: u16 = 0x00;

pub const ABS_Y: u16 = 0x01;

// Mouse buttons
pub const BTN_LEFT: u16 = 0x110;

pub const BTN_RIGHT: u16 = 0x111;

pub const BTN_MIDDLE: u16 = 0x112;

pub const BTN_SIDE: u16 = 0x113;

pub const BTN_EXTRA: u16 = 0x114;

pub const BTN_MOUSE: u16 = 0x110;

// Modifier keys
pub const KEY_LEFTCTRL: u16 = 29;

pub const KEY_LEFTSHIFT: u16 = 42;

pub const KEY_LEFTALT: u16 = 56;

pub const KEY_LEFTMETA: u16 = 125;

pub const KEY_RIGHTCTRL: u16 = 97;

pub const KEY_RIGHTSHIFT: u16 = 54;

pub const KEY_RIGHTALT: u16 = 100;

pub const KEY_RIGHTMETA: u16 = 126;

pub const KEY_CAPSLOCK: u16 = 58;

pub const KEY_NUMLOCK: u16 = 69;

/// A raw event as the kernel hands it out.
#[derive(Debug, Clone, Copy, PartialEq, Eq, Structural)]
pub struct InputEventRaw {
    pub tv_sec: i64,
    pub tv_usec: i64,
    pub type_: u16,
    pub code: u16,
    pub value: i32,
}

impl InputEventRaw {
    /// The time of the event in microseconds: zero for a time before the
    /// epoch, and the largest number where the microseconds do not fit.
    pub open spec fn spec_timestamp_us(&self) -> u64 {
        if self.tv_sec < 0 || self.tv_usec < 0 {
            0
        } else if self.tv_sec * 1_000_000 + self.tv_usec > u64::MAX {
            u64::MAX
        } else {
            (self.tv_sec * 1_000_000 + self.tv_usec) as u64
        }
    }

    /// The time of the event in microseconds.
    #[verifier::when_used_as_spec(spec_timestamp_us)]
    pub fn timestamp_us(&self) -> (us: u64)
        ensures
            us == self.spec_timestamp_us(),
    {
        if self.tv_sec < 0 || self.tv_usec < 0 {
            return 0;
        }
        match (self.tv_sec as u64).checked_mul(1_000_000) {
            Some(whole) => match whole.checked_add(self.tv_usec as u64) {
                Some(us) => us,
                None => u64::MAX,
            },
            None => u64::MAX,
        }
    }
}

/// A raw event to write: type, code and value.
#[derive(Debug, Clone, Copy, PartialEq, Eq, Structural)]
pub struct RawEvent {
    pub type_: u16,
    pub code: u16,
    pub value: i32,
}

/// The event that ends a report.
pub open spec fn sync() -> RawEvent {
    RawEvent { type_: EV_SYN, code: SYN_REPORT, value: 0 }
}

/// The modifiers after the key with the Linux keycode `code` has gone
/// down or up: shift, ctrl, alt and meta are held while either of their
/// keys is down; a press of caps lock or num lock toggles the lock.
pub open spec fn spec_update_modifiers(modifiers: Modifiers, code: u16, pressed: bool) -> Modifiers {
    if code == KEY_LEFTSHIFT || code == KEY_RIGHTSHIFT {
        Modifiers { shift: pressed, ..modifiers }
    } else if code == KEY_LEFTCTRL || code == KEY_RIGHTCTRL {
        Modifiers { ctrl: pressed, ..modifiers }
    } else if code == KEY_LEFTALT || code == KEY_RIGHTALT {
        Modifiers { alt: pressed, ..modifiers }
    } else if code == KEY_LEFTMETA || code == KEY_RIGHTMETA {
        Modifiers { meta: pressed, ..modifiers }
    } else if code == KEY_CAPSLOCK && pressed {
        Modifiers { caps_lock: !modifiers.caps_lock, ..modifiers }
    } else if code == KEY_NUMLOCK && pressed {
        Modifiers { num_lock: !modifiers.num_lock, ..modifiers }
    } else {
        modifiers
    }
}

/// The modifiers after a key has gone down or up.
pub fn update_modifiers(modifiers: Modifiers, code: u16, pressed: bool) -> (updated: Modifiers)
    ensures
        updated == spec_update_modifiers(modifiers, code, pressed),
{
    let mut updated = modifiers;
    if code == KEY_LEFTSHIFT || code == KEY_RIGHTSHIFT {
        updated.shift = pressed;
    } else if code == KEY_LEFTCTRL || code == KEY_RIGHTCTRL {
        updated.ctrl = pressed;
    } else if code == KEY_LEFTALT || code == KEY_RIGHTALT {
        updated.alt = pressed;
    } else if code == KEY_LEFTMETA || code == KEY_RIGHTMETA {
        updated.meta = pressed;
    } else if code == KEY_CAPSLOCK && pressed {
        updated.caps_lock = !updated.caps_lock;
    } else if code == KEY_NUMLOCK && pressed {
        updated.num_lock = !updated.num_lock;
    }
    updated
}

/// The modifiers that key events carry: shift, ctrl, alt and meta as
/// [`spec_update_modifiers`] holds them; the locks are not tracked.
pub open spec fn spec_held_modifiers(modifiers: Modifiers, code: u16, pressed: bool) -> Modifiers {
    if code == KEY_CAPSLOCK || code == KEY_NUMLOCK {
        modifiers
    } else {
        spec_update_modifiers(modifiers, code, pressed)
    }
}

/// The mouse button of a button code.
pub open spec fn spec_button_of(code: u16) -> Option<MouseButton> {
    if code == BTN_LEFT {
        Some(MouseButton::Left)
    } else if code == BTN_RIGHT {
        Some(MouseButton::Right)
    } else if code == BTN_MIDDLE {
        Some(MouseButton::Middle)
    } else if code == BTN_SIDE {
        Some(MouseButton::Button4)
    } else if code == BTN_EXTRA {
        Some(MouseButton::Button5)
    } else {
        None
    }
}

/// The button code of a mouse button.
pub open spec fn spec_button_code(button: MouseButton) -> u16 {
    match button {
        MouseButton::Left => BTN_LEFT,
        MouseButton::Right => BTN_RIGHT,
        MouseButton::Middle => BTN_MIDDLE,
        MouseButton::Button4 => BTN_SIDE,
        MouseButton::Button5 => BTN_EXTRA,
    }
}

fn button_of(code: u16) -> (button: Option<MouseButton>)
    ensures
        button == spec_button_of(code),
{
    if code == BTN_LEFT {
        Some(MouseButton::Left)
    } else if code == BTN_RIGHT {
        Some(MouseButton::Right)
    } else if code == BTN_MIDDLE {
        Some(MouseButton::Middle)
    } else if code == BTN_SIDE {
        Some(MouseButton::Button4)
    } else if code == BTN_EXTRA {
        Some(MouseButton::Button5)
    } else {
        None
    }
}

fn button_code(button: MouseButton) -> (code: u16)
    ensures
        code == spec_button_code(button),
{
    match button {
        MouseButton::Left => BTN_LEFT,
        MouseButton::Right => BTN_RIGHT,
        MouseButton::Middle => BTN_MIDDLE,
        MouseButton::Button4 => BTN_SIDE,
        MouseButton::Button5 => BTN_EXTRA,
    }
}

/// A sum that wraps around at the ends of the range.
pub open spec fn wrapped(a: i32, b: i32) -> i32 {
    let sum = a + b;
    if sum > i32::MAX {
        (sum - 0x1_0000_0000) as i32
    } else if sum < i32::MIN {
        (sum + 0x1_0000_0000) as i32
    } else {
        sum as i32
    }
}

/// Turns the raw events of the input devices into input events.
///
/// Relative movement is gathered until the report ends and leaves as one
/// movement that also says where the cursor is; the position is the sum
/// of all movement so far. Positions and sums wrap around.
#[derive(Debug, Clone, Copy, PartialEq, Eq, Structural)]
pub struct EvdevTranslator {
    /// Where the cursor is.
    pub mouse_x: i32,
    pub mouse_y: i32,
    /// Movement gathered since the last report.
    pub rel_x: i32,
    pub rel_y: i32,
    /// The modifiers that are held.
    pub modifiers: Modifiers,
}

impl EvdevTranslator {
    /// The state after a raw event, and the input event that it gives
    /// rise to, if any.
    ///
    /// Movement along an axis is gathered; a wheel gives a scroll event at
    /// once. A key event with one of the eight mouse button codes gives a
    /// button event where the code is one of the five known buttons, and
    /// nothing else; any other key event updates the modifiers held and
    /// gives a keyboard event under the key's USB HID usage code. The end
    /// of a report gives the movement gathered, unless there is none.
    pub open spec fn spec_translate(self, raw: InputEventRaw) -> (EvdevTranslator, Option<InputEvent>) {
        let timestamp = raw.spec_timestamp_us();
        if raw.type_ == EV_REL {
            if raw.code == REL_X {
                (
                    EvdevTranslator {
                        rel_x: wrapped(self.rel_x, raw.value),
                        mouse_x: wrapped(self.mouse_x, raw.value),
                        ..self
                    },
                    None,
                )
            } else if raw.code == REL_Y {
                (
                    EvdevTranslator {
                        rel_y: wrapped(self.rel_y, raw.value),
                        mouse_y: wrapped(self.mouse_y, raw.value),
                        ..self
                    },
                    None,
                )
            } else if raw.code == REL_WHEEL {
                (self, Some(InputEvent::MouseScroll(MouseScrollEvent { timestamp, dx: 0, dy: raw.value })))
            } else if raw.code == REL_HWHEEL {
                (self, Some(InputEvent::MouseScroll(MouseScrollEvent { timestamp, dx: raw.value, dy: 0 })))
            } else {
                (self, None)
            }
        } else if raw.type_ == EV_KEY {
            let pressed = raw.value != 0;
            if BTN_MOUSE <= raw.code < BTN_MOUSE + 8 {
                match spec_button_of(raw.code) {
                    Some(button) => (
                        self,
                        Some(
                            InputEvent::MouseButton(
                                MouseButtonEvent {
                                    timestamp,
                                    button,
                                    pressed,
                                    x: self.mouse_x,
                                    y: self.mouse_y,
                                },
                            ),
                        ),
                    ),
                    None => (self, None),
                }
            } else {
                let modifiers = spec_held_modifiers(self.modifiers, raw.code, pressed);
                (
                    EvdevTranslator { modifiers, ..self },
                    Some(
                        InputEvent::Keyboard(
                            KeyboardEvent {
                                timestamp,
                                keycode: spec_linux_to_hid_keycode(raw.code as u32),
                                scancode: raw.code as u32,
                                pressed,
                                character: None,
                                modifiers,
                            },
                        ),
                    ),
                )
            }
        } else if raw.type_ == EV_SYN && raw.code == SYN_REPORT {
            if self.rel_x != 0 || self.rel_y != 0 {
                (
                    EvdevTranslator { rel_x: 0, rel_y: 0, ..self },
                    Some(
                        InputEvent::MouseMove(
                            MouseMoveEvent {
                                timestamp,
                                x: Some(self.mouse_x),
                                y: Some(self.mouse_y),
                                dx: self.rel_x,
                                dy: self.rel_y,
                            },
                        ),
                    ),
                )
            } else {
                (self, None)
            }
        } else {
            (self, None)
        }
    }

    /// A translator with the cursor at the origin, no movement gathered
    /// and no modifier held.
    pub fn new() -> (translator: EvdevTranslator)
        ensures
            translator == (EvdevTranslator {
                mouse_x: 0,
                mouse_y: 0,
                rel_x: 0,
                rel_y: 0,
                modifiers: Modifiers::spec_from_bits(0),
            }),
    {
        EvdevTranslator { mouse_x: 0, mouse_y: 0, rel_x: 0, rel_y: 0, modifiers: Modifiers::from_bits(0) }
    }

    /// Take in a raw event; what comes back is the input event that it
    /// gives rise to, if any.
    pub fn translate(&mut self, raw: &InputEventRaw) -> (event: Option<InputEvent>)
        ensures
            (*final(self), event) == old(self).spec_translate(*raw),
    {
        let timestamp = raw.timestamp_us();
        if raw.type_ == EV_REL {
            if raw.code == REL_X {
                self.rel_x = self.rel_x.wrapping_add(raw.value);
                self.mouse_x = self.mouse_x.wrapping_add(raw.value);
                None
            } else if raw.code == REL_Y {
                self.rel_y = self.rel_y.wrapping_add(raw.value);
                self.mouse_y = self.mouse_y.wrapping_add(raw.value);
                None
            } else if raw.code == REL_WHEEL {
                Some(InputEvent::MouseScroll(MouseScrollEvent { timestamp, dx: 0, dy: raw.value }))
            } else if raw.code == REL_HWHEEL {
                Some(InputEvent::MouseScroll(MouseScrollEvent { timestamp, dx: raw.value, dy: 0 }))
            } else {
                None
            }
        } else if raw.type_ == EV_KEY {
            let pressed = raw.value != 0;
            let code = raw.code;

            // Check if it's a mouse button
            if code >= BTN_MOUSE && code < BTN_MOUSE + 8 {
                match button_of(code) {
                    Some(button) => Some(
                        InputEvent::MouseButton(
                            MouseButtonEvent {
                                timestamp,
                                button,
                                pressed,
                                x: self.mouse_x,
                                y: self.mouse_y,
                            },
                        ),
                    ),
                    None => None,
                }
            } else {
                // Keyboard event: update modifier state
                if code != KEY_CAPSLOCK && code != KEY_NUMLOCK {
                    self.modifiers = update_modifiers(self.modifiers, code, pressed);
                }
                let keycode = linux_to_hid_keycode(code as u32);
                Some(
                    InputEvent::Keyboard(
                        KeyboardEvent {
                            timestamp,
                            keycode,
                            scancode: code as u32,
                            pressed,
                            character: None,
                            modifiers: self.modifiers,
                        },
                    ),
                )
            }
        } else if raw.type_ == EV_SYN && raw.code == SYN_REPORT {
            // Send accumulated mouse movement on sync
            if self.rel_x != 0 || self.rel_y != 0 {
                let event = InputEvent::MouseMove(
                    MouseMoveEvent {
                        timestamp,
                        x: Some(self.mouse_x),
                        y: Some(self.mouse_y),
                        dx: self.rel_x,
                        dy: self.rel_y,
                    },
                );
                self.rel_x = 0;
                self.rel_y = 0;
                Some(event)
            } else {
                None
            }
        } else {
            None
        }
    }
}

/// The raw events that inject a command, the last of them the end of the
/// report. Movement and scrolling leave out an axis without movement; a
/// key goes by the Linux keycode of its USB HID usage code.
pub open spec fn spec_injection_events(command: InjectorCommand) -> Seq<RawEvent> {
    match command {
        InjectorCommand::MouseMoveRelative { dx, dy } => {
            let along_x = if dx != 0 {
                seq![RawEvent { type_: EV_REL, code: REL_X, value: dx }]
            } else {
                Seq::empty()
            };
            let along_y = if dy != 0 {
                seq![RawEvent { type_: EV_REL, code: REL_Y, value: dy }]
            } else {
                Seq::empty()
            };
            (along_x + along_y).push(sync())
        },
        InjectorCommand::MouseMoveAbsolute { x, y } => seq![
            RawEvent { type_: EV_ABS, code: ABS_X, value: x },
            RawEvent { type_: EV_ABS, code: ABS_Y, value: y },
            sync(),
        ],
        InjectorCommand::MouseButton { button, pressed } => seq![
            RawEvent {
                type_: EV_KEY,
                code: spec_button_code(button),
                value: if pressed {
                    1i32
                } else {
                    0i32
                },
            },
            sync(),
        ],
        InjectorCommand::MouseScroll { dx, dy } => {
            let vertical = if dy != 0 {
                seq![RawEvent { type_: EV_REL, code: REL_WHEEL, value: dy }]
            } else {
                Seq::empty()
            };
            let horizontal = if dx != 0 {
                seq![RawEvent { type_: EV_REL, code: REL_HWHEEL, value: dx }]
            } else {
                Seq::empty()
            };
            (vertical + horizontal).push(sync())
        },
        InjectorCommand::KeyDown { keycode, .. } => seq![
            RawEvent { type_: EV_KEY, code: spec_hid_to_linux_keycode(keycode) as u16, value: 1 },
            sync(),
        ],
        InjectorCommand::KeyUp { keycode, .. } => seq![
            RawEvent { type_: EV_KEY, code: spec_hid_to_linux_keycode(keycode) as u16, value: 0 },
            sync(),
        ],
    }
}

/// The raw events to write in order to inject a command.
pub fn injection_events(command: InjectorCommand) -> (events: Vec<RawEvent>)
    ensures
        events@ == spec_injection_events(command),
{
    let mut events: Vec<RawEvent> = Vec::new();
    match command {
        InjectorCommand::MouseMoveRelative { dx, dy } => {
            if dx != 0 {
                events.push(RawEvent { type_: EV_REL, code: REL_X, value: dx });
            }
            if dy != 0 {
                events.push(RawEvent { type_: EV_REL, code: REL_Y, value: dy });
            }
        },
        InjectorCommand::MouseMoveAbsolute { x, y } => {
            events.push(RawEvent { type_: EV_ABS, code: ABS_X, value: x });
            events.push(RawEvent { type_: EV_ABS, code: ABS_Y, value: y });
        },
        InjectorCommand::MouseButton { button, pressed } => {
            events.push(
                RawEvent { type_: EV_KEY, code: button_code(button), value: if pressed {
                    1
                } else {
                    0
                } },
            );
        },
        InjectorCommand::MouseScroll { dx, dy } => {
            if dy != 0 {
                events.push(RawEvent { type_: EV_REL, code: REL_WHEEL, value: dy });
            }
            if dx != 0 {
                events.push(RawEvent { type_: EV_REL, code: REL_HWHEEL, value: dx });
            }
        },
        InjectorCommand::KeyDown { keycode, .. } => {
            let linux_keycode = hid_to_linux_keycode(keycode);
            events.push(RawEvent { type_: EV_KEY, code: linux_keycode as u16, value: 1 });
        },
        InjectorCommand::KeyUp { keycode, .. } => {
            let linux_keycode = hid_to_linux_keycode(keycode);
            events.push(RawEvent { type_: EV_KEY, code: linux_keycode as u16, value: 0 });
        },
    }
    events.push(RawEvent { type_: EV_SYN, code: SYN_REPORT, value: 0 });
    assert(events@ =~= spec_injection_events(command));
    events
}

/// A key going down or up, and the end of the report.
pub open spec fn key_report(code: u16, value: i32) -> Seq<RawEvent> {
    seq![RawEvent { type_: EV_KEY, code, value }, sync()]
}

/// The raw events that type a character: its key goes down and up, with
/// the left shift key held around it where the character needs shift; no
/// events for a character without a key.
pub open spec fn spec_type_char_events(c: char) -> Seq<RawEvent> {
    match spec_char_to_keycode(c) {
        Some((keycode, shift)) => {
            let stroke = key_report(keycode, 1) + key_report(keycode, 0);
            if shift {
                key_report(KEY_LEFTSHIFT, 1) + stroke + key_report(KEY_LEFTSHIFT, 0)
            } else {
                stroke
            }
        },
        None => Seq::empty(),
    }
}

fn push_key_report(events: &mut Vec<RawEvent>, code: u16, value: i32)
    ensures
        final(events)@ == old(events)@ + key_report(code, value),
{
    events.push(RawEvent { type_: EV_KEY, code, value });
    events.push(RawEvent { type_: EV_SYN, code: SYN_REPORT, value: 0 });
    assert(events@ =~= old(events)@ + key_report(code, value));
}

/// The raw events to write in order to type a character.
pub fn type_char_events(c: char) -> (events: Vec<RawEvent>)
    ensures
        events@ == spec_type_char_events(c),
{
    let mut events: Vec<RawEvent> = Vec::new();
    // Map character to keycode
    match char_to_keycode(c) {
        Some((keycode, shift)) => {
            if shift {
                push_key_report(&mut events, KEY_LEFTSHIFT, 1);
            }
            push_key_report(&mut events, keycode, 1);
            push_key_report(&mut events, keycode, 0);
            if shift {
                push_key_report(&mut events, KEY_LEFTSHIFT, 0);
            }
        },
        None => {},
    }
    assert(events@ =~= spec_type_char_events(c));
    events
}

} // verus!
