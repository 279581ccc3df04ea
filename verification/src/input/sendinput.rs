//! Windows input injection, in plain values: the inputs that inject a
//! command.
//!
//! Sending the inputs is the caller's business. It sends what
//! [`injection_inputs`] and [`type_char_inputs`] list, in their order.

use vstd::prelude::*;

use crate::control::follower::InjectorCommand;
use crate::input::keymap_windows::{hid_to_windows_vk, spec_hid_to_windows_vk};
use crate::protocol::message::MouseButton;

verus! {

// The flags of a mouse input.
pub const MOUSEEVENTF_MOVE: u32 = 0x0001;

pub const MOUSEEVENTF_LEFTDOWN: u32 = 0x0002;

pub const MOUSEEVENTF_LEFTUP: u32 = 0x0004;

pub const MOUSEEVENTF_RIGHTDOWN: u32 = 0x0008;

pub const MOUSEEVENTF_RIGHTUP: u32 = 0x0010;

pub const MOUSEEVENTF_MIDDLEDOWN: u32 = 0x0020;

pub const MOUSEEVENTF_MIDDLEUP: u32 = 0x0040;

pub const MOUSEEVENTF_XDOWN: u32 = 0x0080;

pub const MOUSEEVENTF_XUP: u32 = 0x0100;

pub const MOUSEEVENTF_WHEEL: u32 = 0x0800;

pub const MOUSEEVENTF_HWHEEL: u32 = 0x1000;

pub const MOUSEEVENTF_MOVE_NOCOALESCE: u32 = 0x2000;

pub const MOUSEEVENTF_ABSOLUTE: u32 = 0x8000;

// The flags of a keyboard input.
pub const KEYEVENTF_KEYUP: u32 = 0x0002;

pub const KEYEVENTF_UNICODE: u32 = 0x0004;

/// The wheel data of one click of the wheel.
pub const WHEEL_DELTA: i64 = 120;

/// The largest coordinate of an absolute movement.
pub const ABSOLUTE_RANGE: i64 = 65535;

/// An input to send.
#[derive(Debug, Clone, Copy, PartialEq, Eq, Structural)]
pub enum Input {
    Mouse { dx: i32, dy: i32, mouse_data: u32, flags: u32 },
    Keyboard { virtual_key: u16, scan: u16, flags: u32 },
}

/// A quotient rounded towards zero.
pub open spec fn toward_zero(dividend: int, divisor: int) -> int
    recommends
        divisor > 0,
{
    if dividend >= 0 {
        dividend / divisor
    } else {
        -((-dividend) / divisor)
    }
}

/// A number held to the range of 32-bit signed numbers.
pub open spec fn held_to_i32(n: int) -> int {
    if n > i32::MAX {
        i32::MAX as int
    } else if n < i32::MIN {
        i32::MIN as int
    } else {
        n
    }
}

/// A coordinate as its share of the absolute range: the coordinate times
/// the range over the extent of the screen, rounded towards zero; the
/// coordinate itself on a screen without extent.
pub open spec fn spec_normalized(coord: i32, extent: i32) -> int {
    if extent > 0 {
        held_to_i32(toward_zero(coord * ABSOLUTE_RANGE, extent as int))
    } else {
        coord as int
    }
}

fn normalized(coord: i32, extent: i32) -> (n: i32)
    ensures
        n == spec_normalized(coord, extent),
{
    if extent > 0 {
        let scaled: i64 = coord as i64 * ABSOLUTE_RANGE;
        let quotient: i64 = if scaled >= 0 {
            scaled / (extent as i64)
        } else {
            -((-scaled) / (extent as i64))
        };
        if quotient > i32::MAX as i64 {
            i32::MAX
        } else if quotient < i32::MIN as i64 {
            i32::MIN
        } else {
            quotient as i32
        }
    } else {
        coord
    }
}

/// The wheel data of a number of clicks: the clicks times the data of one
/// click, as the 32 bits of that number.
pub open spec fn spec_wheel_data(clicks: i32) -> int {
    (clicks * WHEEL_DELTA) % 0x1_0000_0000
}

fn wheel_data(clicks: i32) -> (data: u32)
    ensures
        data == spec_wheel_data(clicks),
{
    let amount: i64 = clicks as i64 * WHEEL_DELTA;
    if amount >= 0 {
        (amount % 0x1_0000_0000) as u32
    } else {
        let back: i64 = (-amount) % 0x1_0000_0000;
        assert(amount % 0x1_0000_0000 == (if back == 0 {
            0
        } else {
            0x1_0000_0000 - back
        })) by (nonlinear_arith)
            requires
                amount < 0,
                back == (-amount) % 0x1_0000_0000,
        ;
        if back == 0 {
            0
        } else {
            (0x1_0000_0000 - back) as u32
        }
    }
}

/// The flags and the data of the input for a button that goes down or
/// up. The fourth and fifth button are the first and second extra button.
pub open spec fn spec_button_input(button: MouseButton, pressed: bool) -> (u32, u32) {
    match button {
        MouseButton::Left => (
            if pressed {
                MOUSEEVENTF_LEFTDOWN
            } else {
                MOUSEEVENTF_LEFTUP
            },
            0,
        ),
        MouseButton::Right => (
            if pressed {
                MOUSEEVENTF_RIGHTDOWN
            } else {
                MOUSEEVENTF_RIGHTUP
            },
            0,
        ),
        MouseButton::Middle => (
            if pressed {
                MOUSEEVENTF_MIDDLEDOWN
            } else {
                MOUSEEVENTF_MIDDLEUP
            },
            0,
        ),
        MouseButton::Button4 => (
            if pressed {
                MOUSEEVENTF_XDOWN
            } else {
                MOUSEEVENTF_XUP
            },
            1,
        ),
        MouseButton::Button5 => (
            if pressed {
                MOUSEEVENTF_XDOWN
            } else {
                MOUSEEVENTF_XUP
            },
            2,
        ),
    }
}

fn button_input(button: MouseButton, pressed: bool) -> (input: (u32, u32))
    ensures
        input == spec_button_input(button, pressed),
{
    match (button, pressed) {
        (MouseButton::Left, true) => (MOUSEEVENTF_LEFTDOWN, 0),
        (MouseButton::Left, false) => (MOUSEEVENTF_LEFTUP, 0),
        (MouseButton::Right, true) => (MOUSEEVENTF_RIGHTDOWN, 0),
        (MouseButton::Right, false) => (MOUSEEVENTF_RIGHTUP, 0),
        (MouseButton::Middle, true) => (MOUSEEVENTF_MIDDLEDOWN, 0),
        (MouseButton::Middle, false) => (MOUSEEVENTF_MIDDLEUP, 0),
        (MouseButton::Button4, true) => (MOUSEEVENTF_XDOWN, 1),
        (MouseButton::Button4, false) => (MOUSEEVENTF_XUP, 1),
        (MouseButton::Button5, true) => (MOUSEEVENTF_XDOWN, 2),
        (MouseButton::Button5, false) => (MOUSEEVENTF_XUP, 2),
    }
}

/// The inputs that inject a command on a screen of the given size.
///
/// A relative movement is one input that is not to be coalesced; an
/// absolute movement goes in the coordinates of the absolute range. A
/// button is one input. Scrolling is an input for each wheel that turns,
/// the vertical one first. A key goes by the virtual key code of its USB
/// HID usage code.
pub open spec fn spec_injection_inputs(
    command: InjectorCommand,
    screen_width: i32,
    screen_height: i32,
) -> Seq<Input> {
    match command {
        InjectorCommand::MouseMoveRelative { dx, dy } => seq![
            Input::Mouse {
                dx,
                dy,
                mouse_data: 0,
                flags: (MOUSEEVENTF_MOVE + MOUSEEVENTF_MOVE_NOCOALESCE) as u32,
            },
        ],
        InjectorCommand::MouseMoveAbsolute { x, y } => seq![
            Input::Mouse {
                dx: spec_normalized(x, screen_width) as i32,
                dy: spec_normalized(y, screen_height) as i32,
                mouse_data: 0,
                flags: (MOUSEEVENTF_MOVE + MOUSEEVENTF_ABSOLUTE) as u32,
            },
        ],
        InjectorCommand::MouseButton { button, pressed } => seq![
            Input::Mouse {
                dx: 0,
                dy: 0,
                mouse_data: spec_button_input(button, pressed).1,
                flags: spec_button_input(button, pressed).0,
            },
        ],
        InjectorCommand::MouseScroll { dx, dy } => {
            let vertical = if dy != 0 {
                seq![
                    Input::Mouse {
                        dx: 0,
                        dy: 0,
                        mouse_data: spec_wheel_data(dy) as u32,
                        flags: MOUSEEVENTF_WHEEL,
                    },
                ]
            } else {
                Seq::empty()
            };
            let horizontal = if dx != 0 {
                seq![
                    Input::Mouse {
                        dx: 0,
                        dy: 0,
                        mouse_data: spec_wheel_data(dx) as u32,
                        flags: MOUSEEVENTF_HWHEEL,
                    },
                ]
            } else {
                Seq::empty()
            };
            vertical + horizontal
        },
        InjectorCommand::KeyDown { keycode, .. } => seq![
            Input::Keyboard { virtual_key: spec_hid_to_windows_vk(keycode) as u16, scan: 0, flags: 0 },
        ],
        InjectorCommand::KeyUp { keycode, .. } => seq![
            Input::Keyboard {
                virtual_key: spec_hid_to_windows_vk(keycode) as u16,
                scan: 0,
                flags: KEYEVENTF_KEYUP,
            },
        ],
    }
}

/// The inputs to send in order to inject a command.
pub fn injection_inputs(command: InjectorCommand, screen_width: i32, screen_height: i32) -> (inputs:
    Vec<Input>)
    ensures
        inputs@ == spec_injection_inputs(command, screen_width, screen_height),
{
    let mut inputs: Vec<Input> = Vec::new();
    match command {
        InjectorCommand::MouseMoveRelative { dx, dy } => {
            inputs.push(
                Input::Mouse {
                    dx,
                    dy,
                    mouse_data: 0,
                    flags: MOUSEEVENTF_MOVE + MOUSEEVENTF_MOVE_NOCOALESCE,
                },
            );
        },
        InjectorCommand::MouseMoveAbsolute { x, y } => {
            // Convert to the coordinates of the absolute range
            let normalized_x = normalized(x, screen_width);
            let normalized_y = normalized(y, screen_height);
            inputs.push(
                Input::Mouse {
                    dx: normalized_x,
                    dy: normalized_y,
                    mouse_data: 0,
                    flags: MOUSEEVENTF_MOVE + MOUSEEVENTF_ABSOLUTE,
                },
            );
        },
        InjectorCommand::MouseButton { button, pressed } => {
            let (flags, mouse_data) = button_input(button, pressed);
            inputs.push(Input::Mouse { dx: 0, dy: 0, mouse_data, flags });
        },
        InjectorCommand::MouseScroll { dx, dy } => {
            if dy != 0 {
                inputs.push(
                    Input::Mouse { dx: 0, dy: 0, mouse_data: wheel_data(dy), flags: MOUSEEVENTF_WHEEL },
                );
            }
            if dx != 0 {
                inputs.push(
                    Input::Mouse { dx: 0, dy: 0, mouse_data: wheel_data(dx), flags: MOUSEEVENTF_HWHEEL },
                );
            }
        },
        InjectorCommand::KeyDown { keycode, .. } => {
            let vk = hid_to_windows_vk(keycode);
            inputs.push(Input::Keyboard { virtual_key: vk as u16, scan: 0, flags: 0 });
        },
        InjectorCommand::KeyUp { keycode, .. } => {
            let vk = hid_to_windows_vk(keycode);
            inputs.push(Input::Keyboard { virtual_key: vk as u16, scan: 0, flags: KEYEVENTF_KEYUP });
        },
    }
    assert(inputs@ =~= spec_injection_inputs(command, screen_width, screen_height));
    inputs
}

/// The inputs that type a character: the character as a Unicode key that
/// goes down and up. The key holds the low 16 bits of the character.
pub open spec fn spec_type_char_inputs(c: char) -> Seq<Input> {
    seq![
        Input::Keyboard { virtual_key: 0, scan: (c as u32 % 0x1_0000) as u16, flags: KEYEVENTF_UNICODE },
        Input::Keyboard {
            virtual_key: 0,
            scan: (c as u32 % 0x1_0000) as u16,
            flags: (KEYEVENTF_UNICODE + KEYEVENTF_KEYUP) as u32,
        },
    ]
}

/// The inputs to send in order to type a character.
pub fn type_char_inputs(c: char) -> (inputs: Vec<Input>)
    ensures
        inputs@ == spec_type_char_inputs(c),
{
    let scan: u16 = (c as u32 % 0x1_0000) as u16;
    let mut inputs: Vec<Input> = Vec::new();
    inputs.push(Input::Keyboard { virtual_key: 0, scan, flags: KEYEVENTF_UNICODE });
    inputs.push(
        Input::Keyboard { virtual_key: 0, scan, flags: KEYEVENTF_UNICODE + KEYEVENTF_KEYUP },
    );
    assert(inputs@ =~= spec_type_char_inputs(c));
    inputs
}

} // verus!
