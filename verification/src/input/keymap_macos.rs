//! Key codes of macOS: the mapping between USB HID usage codes,
//! which key events carry between hosts, and the virtual keycodes of macOS.

use vstd::prelude::*;

verus! {

/// Whether the table of `macos_to_hid_keycode` holds the code.
pub open spec fn spec_macos_to_hid_keycode_knows(mac: u32) -> bool {
    match mac {
        0 | 11 | 8 | 2 | 14 | 3 | 5 | 4 |
        34 | 38 | 40 | 37 | 46 | 45 | 31 | 35 |
        12 | 15 | 1 | 17 | 32 | 9 | 13 | 7 |
        16 | 6 | 18 | 19 | 20 | 21 | 23 | 22 |
        26 | 28 | 25 | 29 | 36 | 53 | 51 | 48 |
        49 | 27 | 24 | 33 | 30 | 42 | 41 | 39 |
        50 | 43 | 47 | 44 | 57 | 122 | 120 | 99 |
        118 | 96 | 97 | 98 | 100 | 101 | 109 | 103 |
        111 | 124 | 123 | 125 | 126 | 59 | 56 | 58 |
        55 | 62 | 60 | 61 | 54 => true,
        _ => false,
    }
}

/// The USB HID usage code of a macOS virtual keycode; a code without one is passed through.
pub open spec fn spec_macos_to_hid_keycode(mac: u32) -> u32 {
    match mac {
        0 => 0x04,  // A
        11 => 0x05,  // B
        8 => 0x06,  // C
        2 => 0x07,  // D
        14 => 0x08,  // E
        3 => 0x09,  // F
        5 => 0x0A,  // G
        4 => 0x0B,  // H
        34 => 0x0C,  // I
        38 => 0x0D,  // J
        40 => 0x0E,  // K
        37 => 0x0F,  // L
        46 => 0x10,  // M
        45 => 0x11,  // N
        31 => 0x12,  // O
        35 => 0x13,  // P
        12 => 0x14,  // Q
        15 => 0x15,  // R
        1 => 0x16,  // S
        17 => 0x17,  // T
        32 => 0x18,  // U
        9 => 0x19,  // V
        13 => 0x1A,  // W
        7 => 0x1B,  // X
        16 => 0x1C,  // Y
        6 => 0x1D,  // Z
        18 => 0x1E,  // 1
        19 => 0x1F,  // 2
        20 => 0x20,  // 3
        21 => 0x21,  // 4
        23 => 0x22,  // 5
        22 => 0x23,  // 6
        26 => 0x24,  // 7
        28 => 0x25,  // 8
        25 => 0x26,  // 9
        29 => 0x27,  // 0
        36 => 0x28,  // Return
        53 => 0x29,  // Escape
        51 => 0x2A,  // Delete (Backspace)
        48 => 0x2B,  // Tab
        49 => 0x2C,  // Space
        27 => 0x2D,  // Minus
        24 => 0x2E,  // Equal
        33 => 0x2F,  // Left Bracket
        30 => 0x30,  // Right Bracket
        42 => 0x31,  // Backslash
        41 => 0x33,  // Semicolon
        39 => 0x34,  // Quote
        50 => 0x35,  // Grave
        43 => 0x36,  // Comma
        47 => 0x37,  // Period
        44 => 0x38,  // Slash
        57 => 0x39,  // Caps Lock
        122 => 0x3A,  // F1
        120 => 0x3B,  // F2
        99 => 0x3C,  // F3
        118 => 0x3D,  // F4
        96 => 0x3E,  // F5
        97 => 0x3F,  // F6
        98 => 0x40,  // F7
        100 => 0x41,  // F8
        101 => 0x42,  // F9
        109 => 0x43,  // F10
        103 => 0x44,  // F11
        111 => 0x45,  // F12
        124 => 0x4F,  // Right Arrow
        123 => 0x50,  // Left Arrow
        125 => 0x51,  // Down Arrow
        126 => 0x52,  // Up Arrow
        59 => 0xE0,  // Left Control
        56 => 0xE1,  // Left Shift
        58 => 0xE2,  // Left Option
        55 => 0xE3,  // Left Command
        62 => 0xE4,  // Right Control
        60 => 0xE5,  // Right Shift
        61 => 0xE6,  // Right Option
        54 => 0xE7,  // Right Command
        _ => mac,
    }
}

/// The USB HID usage code of a macOS virtual keycode; a code without one is passed through.
#[verifier::when_used_as_spec(spec_macos_to_hid_keycode)]
pub fn macos_to_hid_keycode(mac: u32) -> (hid: u32)
    ensures
        hid == spec_macos_to_hid_keycode(mac),
{
    match mac {
        0 => 0x04,  // A
        11 => 0x05,  // B
        8 => 0x06,  // C
        2 => 0x07,  // D
        14 => 0x08,  // E
        3 => 0x09,  // F
        5 => 0x0A,  // G
        4 => 0x0B,  // H
        34 => 0x0C,  // I
        38 => 0x0D,  // J
        40 => 0x0E,  // K
        37 => 0x0F,  // L
        46 => 0x10,  // M
        45 => 0x11,  // N
        31 => 0x12,  // O
        35 => 0x13,  // P
        12 => 0x14,  // Q
        15 => 0x15,  // R
        1 => 0x16,  // S
        17 => 0x17,  // T
        32 => 0x18,  // U
        9 => 0x19,  // V
        13 => 0x1A,  // W
        7 => 0x1B,  // X
        16 => 0x1C,  // Y
        6 => 0x1D,  // Z
        18 => 0x1E,  // 1
        19 => 0x1F,  // 2
        20 => 0x20,  // 3
        21 => 0x21,  // 4
        23 => 0x22,  // 5
        22 => 0x23,  // 6
        26 => 0x24,  // 7
        28 => 0x25,  // 8
        25 => 0x26,  // 9
        29 => 0x27,  // 0
        36 => 0x28,  // Return
        53 => 0x29,  // Escape
        51 => 0x2A,  // Delete (Backspace)
        48 => 0x2B,  // Tab
        49 => 0x2C,  // Space
        27 => 0x2D,  // Minus
        24 => 0x2E,  // Equal
        33 => 0x2F,  // Left Bracket
        30 => 0x30,  // Right Bracket
        42 => 0x31,  // Backslash
        41 => 0x33,  // Semicolon
        39 => 0x34,  // Quote
        50 => 0x35,  // Grave
        43 => 0x36,  // Comma
        47 => 0x37,  // Period
        44 => 0x38,  // Slash
        57 => 0x39,  // Caps Lock
        122 => 0x3A,  // F1
        120 => 0x3B,  // F2
        99 => 0x3C,  // F3
        118 => 0x3D,  // F4
        96 => 0x3E,  // F5
        97 => 0x3F,  // F6
        98 => 0x40,  // F7
        100 => 0x41,  // F8
        101 => 0x42,  // F9
        109 => 0x43,  // F10
        103 => 0x44,  // F11
        111 => 0x45,  // F12
        124 => 0x4F,  // Right Arrow
        123 => 0x50,  // Left Arrow
        125 => 0x51,  // Down Arrow
        126 => 0x52,  // Up Arrow
        59 => 0xE0,  // Left Control
        56 => 0xE1,  // Left Shift
        58 => 0xE2,  // Left Option
        55 => 0xE3,  // Left Command
        62 => 0xE4,  // Right Control
        60 => 0xE5,  // Right Shift
        61 => 0xE6,  // Right Option
        54 => 0xE7,  // Right Command
        _ => mac,
    }
}

/// Whether the table of `hid_to_macos_keycode` holds the code.
pub open spec fn spec_hid_to_macos_keycode_knows(hid: u32) -> bool {
    match hid {
        0x04 | 0x05 | 0x06 | 0x07 | 0x08 | 0x09 | 0x0A | 0x0B |
        0x0C | 0x0D | 0x0E | 0x0F | 0x10 | 0x11 | 0x12 | 0x13 |
        0x14 | 0x15 | 0x16 | 0x17 | 0x18 | 0x19 | 0x1A | 0x1B |
        0x1C | 0x1D | 0x1E | 0x1F | 0x20 | 0x21 | 0x22 | 0x23 |
        0x24 | 0x25 | 0x26 | 0x27 | 0x28 | 0x29 | 0x2A | 0x2B |
        0x2C | 0x2D | 0x2E | 0x2F | 0x30 | 0x31 | 0x33 | 0x34 |
        0x35 | 0x36 | 0x37 | 0x38 | 0x39 | 0x3A | 0x3B | 0x3C |
        0x3D | 0x3E | 0x3F | 0x40 | 0x41 | 0x42 | 0x43 | 0x44 |
        0x45 | 0x4F | 0x50 | 0x51 | 0x52 | 0xE0 | 0xE1 | 0xE2 |
        0xE3 | 0xE4 | 0xE5 | 0xE6 | 0xE7 => true,
        _ => false,
    }
}

/// The macOS virtual keycode of a USB HID usage code; a code without one is passed through.
pub open spec fn spec_hid_to_macos_keycode(hid: u32) -> u32 {
    match hid {
        0x04 => 0,  // A
        0x05 => 11,  // B
        0x06 => 8,  // C
        0x07 => 2,  // D
        0x08 => 14,  // E
        0x09 => 3,  // F
        0x0A => 5,  // G
        0x0B => 4,  // H
        0x0C => 34,  // I
        0x0D => 38,  // J
        0x0E => 40,  // K
        0x0F => 37,  // L
        0x10 => 46,  // M
        0x11 => 45,  // N
        0x12 => 31,  // O
        0x13 => 35,  // P
        0x14 => 12,  // Q
        0x15 => 15,  // R
        0x16 => 1,  // S
        0x17 => 17,  // T
        0x18 => 32,  // U
        0x19 => 9,  // V
        0x1A => 13,  // W
        0x1B => 7,  // X
        0x1C => 16,  // Y
        0x1D => 6,  // Z
        0x1E => 18,  // 1
        0x1F => 19,  // 2
        0x20 => 20,  // 3
        0x21 => 21,  // 4
        0x22 => 23,  // 5
        0x23 => 22,  // 6
        0x24 => 26,  // 7
        0x25 => 28,  // 8
        0x26 => 25,  // 9
        0x27 => 29,  // 0
        0x28 => 36,  // Return
        0x29 => 53,  // Escape
        0x2A => 51,  // Backspace
        0x2B => 48,  // Tab
        0x2C => 49,  // Space
        0x2D => 27,  // Minus
        0x2E => 24,  // Equal
        0x2F => 33,  // Left Bracket
        0x30 => 30,  // Right Bracket
        0x31 => 42,  // Backslash
        0x33 => 41,  // Semicolon
        0x34 => 39,  // Quote
        0x35 => 50,  // Grave
        0x36 => 43,  // Comma
        0x37 => 47,  // Period
        0x38 => 44,  // Slash
        0x39 => 57,  // Caps Lock
        0x3A => 122,  // F1
        0x3B => 120,  // F2
        0x3C => 99,  // F3
        0x3D => 118,  // F4
        0x3E => 96,  // F5
        0x3F => 97,  // F6
        0x40 => 98,  // F7
        0x41 => 100,  // F8
        0x42 => 101,  // F9
        0x43 => 109,  // F10
        0x44 => 103,  // F11
        0x45 => 111,  // F12
        0x4F => 124,  // Right Arrow
        0x50 => 123,  // Left Arrow
        0x51 => 125,  // Down Arrow
        0x52 => 126,  // Up Arrow
        0xE0 => 59,  // Left Control
        0xE1 => 56,  // Left Shift
        0xE2 => 58,  // Left Option
        0xE3 => 55,  // Left Command
        0xE4 => 62,  // Right Control
        0xE5 => 60,  // Right Shift
        0xE6 => 61,  // Right Option
        0xE7 => 54,  // Right Command
        _ => hid,
    }
}

/// The macOS virtual keycode of a USB HID usage code; a code without one is passed through.
#[verifier::when_used_as_spec(spec_hid_to_macos_keycode)]
pub fn hid_to_macos_keycode(hid: u32) -> (mac: u32)
    ensures
        mac == spec_hid_to_macos_keycode(hid),
{
    match hid {
        0x04 => 0,  // A
        0x05 => 11,  // B
        0x06 => 8,  // C
        0x07 => 2,  // D
        0x08 => 14,  // E
        0x09 => 3,  // F
        0x0A => 5,  // G
        0x0B => 4,  // H
        0x0C => 34,  // I
        0x0D => 38,  // J
        0x0E => 40,  // K
        0x0F => 37,  // L
        0x10 => 46,  // M
        0x11 => 45,  // N
        0x12 => 31,  // O
        0x13 => 35,  // P
        0x14 => 12,  // Q
        0x15 => 15,  // R
        0x16 => 1,  // S
        0x17 => 17,  // T
        0x18 => 32,  // U
        0x19 => 9,  // V
        0x1A => 13,  // W
        0x1B => 7,  // X
        0x1C => 16,  // Y
        0x1D => 6,  // Z
        0x1E => 18,  // 1
        0x1F => 19,  // 2
        0x20 => 20,  // 3
        0x21 => 21,  // 4
        0x22 => 23,  // 5
        0x23 => 22,  // 6
        0x24 => 26,  // 7
        0x25 => 28,  // 8
        0x26 => 25,  // 9
        0x27 => 29,  // 0
        0x28 => 36,  // Return
        0x29 => 53,  // Escape
        0x2A => 51,  // Backspace
        0x2B => 48,  // Tab
        0x2C => 49,  // Space
        0x2D => 27,  // Minus
        0x2E => 24,  // Equal
        0x2F => 33,  // Left Bracket
        0x30 => 30,  // Right Bracket
        0x31 => 42,  // Backslash
        0x33 => 41,  // Semicolon
        0x34 => 39,  // Quote
        0x35 => 50,  // Grave
        0x36 => 43,  // Comma
        0x37 => 47,  // Period
        0x38 => 44,  // Slash
        0x39 => 57,  // Caps Lock
        0x3A => 122,  // F1
        0x3B => 120,  // F2
        0x3C => 99,  // F3
        0x3D => 118,  // F4
        0x3E => 96,  // F5
        0x3F => 97,  // F6
        0x40 => 98,  // F7
        0x41 => 100,  // F8
        0x42 => 101,  // F9
        0x43 => 109,  // F10
        0x44 => 103,  // F11
        0x45 => 111,  // F12
        0x4F => 124,  // Right Arrow
        0x50 => 123,  // Left Arrow
        0x51 => 125,  // Down Arrow
        0x52 => 126,  // Up Arrow
        0xE0 => 59,  // Left Control
        0xE1 => 56,  // Left Shift
        0xE2 => 58,  // Left Option
        0xE3 => 55,  // Left Command
        0xE4 => 62,  // Right Control
        0xE5 => 60,  // Right Shift
        0xE6 => 61,  // Right Option
        0xE7 => 54,  // Right Command
        _ => hid,
    }
}

/// The two tables are each other's inverse: a code that one table holds
/// is taken by it to a code that the other holds and takes back.
pub proof fn lemma_macos_keycodes_invert(code: u32)
    ensures
        spec_macos_to_hid_keycode_knows(code) ==> spec_hid_to_macos_keycode_knows(spec_macos_to_hid_keycode(code)) && spec_hid_to_macos_keycode(
            spec_macos_to_hid_keycode(code),
        ) == code,
        spec_hid_to_macos_keycode_knows(code) ==> spec_macos_to_hid_keycode_knows(spec_hid_to_macos_keycode(code)) && spec_macos_to_hid_keycode(
            spec_hid_to_macos_keycode(code),
        ) == code,
{
}

} // verus!
