//! Key codes of Linux: the mapping between USB HID usage codes,
//! which key events carry between hosts, and the keycodes of the Linux input subsystem.

use vstd::prelude::*;

verus! {

/// Whether the table of `hid_to_linux_keycode` holds the code.
pub open spec fn spec_hid_to_linux_keycode_knows(hid: u32) -> bool {
    match hid {
        0x04 | 0x05 | 0x06 | 0x07 | 0x08 | 0x09 | 0x0A | 0x0B |
        0x0C | 0x0D | 0x0E | 0x0F | 0x10 | 0x11 | 0x12 | 0x13 |
        0x14 | 0x15 | 0x16 | 0x17 | 0x18 | 0x19 | 0x1A | 0x1B |
        0x1C | 0x1D | 0x1E | 0x1F | 0x20 | 0x21 | 0x22 | 0x23 |
        0x24 | 0x25 | 0x26 | 0x27 | 0x28 | 0x29 | 0x2A | 0x2B |
        0x2C | 0x2D | 0x2E | 0x2F | 0x30 | 0x31 | 0x33 | 0x34 |
        0x35 | 0x36 | 0x37 | 0x38 | 0x39 | 0x3A | 0x3B | 0x3C |
        0x3D | 0x3E | 0x3F | 0x40 | 0x41 | 0x42 | 0x43 | 0x44 |
        0x45 | 0x4F | 0x50 | 0x51 | 0x52 | 0xE0 | 0xE1 | 0xE2 |
        0xE3 | 0xE4 | 0xE5 | 0xE6 | 0xE7 => true,
        _ => false,
    }
}

/// The Linux keycode of a USB HID usage code; a code without one gives 0.
pub open spec fn spec_hid_to_linux_keycode(hid: u32) -> u32 {
    match hid {
        0x04 => 30,  // A
        0x05 => 48,  // B
        0x06 => 46,  // C
        0x07 => 32,  // D
        0x08 => 18,  // E
        0x09 => 33,  // F
        0x0A => 34,  // G
        0x0B => 35,  // H
        0x0C => 23,  // I
        0x0D => 36,  // J
        0x0E => 37,  // K
        0x0F => 38,  // L
        0x10 => 50,  // M
        0x11 => 49,  // N
        0x12 => 24,  // O
        0x13 => 25,  // P
        0x14 => 16,  // Q
        0x15 => 19,  // R
        0x16 => 31,  // S
        0x17 => 20,  // T
        0x18 => 22,  // U
        0x19 => 47,  // V
        0x1A => 17,  // W
        0x1B => 45,  // X
        0x1C => 21,  // Y
        0x1D => 44,  // Z
        0x1E => 2,  // 1
        0x1F => 3,  // 2
        0x20 => 4,  // 3
        0x21 => 5,  // 4
        0x22 => 6,  // 5
        0x23 => 7,  // 6
        0x24 => 8,  // 7
        0x25 => 9,  // 8
        0x26 => 10,  // 9
        0x27 => 11,  // 0
        0x28 => 28,  // Enter
        0x29 => 1,  // Escape
        0x2A => 14,  // Backspace
        0x2B => 15,  // Tab
        0x2C => 57,  // Space
        0x2D => 12,  // Minus
        0x2E => 13,  // Equal
        0x2F => 26,  // Left Bracket
        0x30 => 27,  // Right Bracket
        0x31 => 43,  // Backslash
        0x33 => 39,  // Semicolon
        0x34 => 40,  // Quote
        0x35 => 41,  // Grave
        0x36 => 51,  // Comma
        0x37 => 52,  // Period
        0x38 => 53,  // Slash
        0x39 => 58,  // Caps Lock
        0x3A => 59,  // F1
        0x3B => 60,  // F2
        0x3C => 61,  // F3
        0x3D => 62,  // F4
        0x3E => 63,  // F5
        0x3F => 64,  // F6
        0x40 => 65,  // F7
        0x41 => 66,  // F8
        0x42 => 67,  // F9
        0x43 => 68,  // F10
        0x44 => 87,  // F11
        0x45 => 88,  // F12
        0x4F => 106,  // Right Arrow
        0x50 => 105,  // Left Arrow
        0x51 => 108,  // Down Arrow
        0x52 => 103,  // Up Arrow
        0xE0 => 29,  // Left Ctrl
        0xE1 => 42,  // Left Shift
        0xE2 => 56,  // Left Alt
        0xE3 => 125,  // Left Meta
        0xE4 => 97,  // Right Ctrl
        0xE5 => 54,  // Right Shift
        0xE6 => 100,  // Right Alt
        0xE7 => 126,  // Right Meta
        _ => 0,
    }
}

/// The Linux keycode of a USB HID usage code; a code without one gives 0.
#[verifier::when_used_as_spec(spec_hid_to_linux_keycode)]
pub fn hid_to_linux_keycode(hid: u32) -> (linux: u32)
    ensures
        linux == spec_hid_to_linux_keycode(hid),
{
    match hid {
        0x04 => 30,  // A
        0x05 => 48,  // B
        0x06 => 46,  // C
        0x07 => 32,  // D
        0x08 => 18,  // E
        0x09 => 33,  // F
        0x0A => 34,  // G
        0x0B => 35,  // H
        0x0C => 23,  // I
        0x0D => 36,  // J
        0x0E => 37,  // K
        0x0F => 38,  // L
        0x10 => 50,  // M
        0x11 => 49,  // N
        0x12 => 24,  // O
        0x13 => 25,  // P
        0x14 => 16,  // Q
        0x15 => 19,  // R
        0x16 => 31,  // S
        0x17 => 20,  // T
        0x18 => 22,  // U
        0x19 => 47,  // V
        0x1A => 17,  // W
        0x1B => 45,  // X
        0x1C => 21,  // Y
        0x1D => 44,  // Z
        0x1E => 2,  // 1
        0x1F => 3,  // 2
        0x20 => 4,  // 3
        0x21 => 5,  // 4
        0x22 => 6,  // 5
        0x23 => 7,  // 6
        0x24 => 8,  // 7
        0x25 => 9,  // 8
        0x26 => 10,  // 9
        0x27 => 11,  // 0
        0x28 => 28,  // Enter
        0x29 => 1,  // Escape
        0x2A => 14,  // Backspace
        0x2B => 15,  // Tab
        0x2C => 57,  // Space
        0x2D => 12,  // Minus
        0x2E => 13,  // Equal
        0x2F => 26,  // Left Bracket
        0x30 => 27,  // Right Bracket
        0x31 => 43,  // Backslash
        0x33 => 39,  // Semicolon
        0x34 => 40,  // Quote
        0x35 => 41,  // Grave
        0x36 => 51,  // Comma
        0x37 => 52,  // Period
        0x38 => 53,  // Slash
        0x39 => 58,  // Caps Lock
        0x3A => 59,  // F1
        0x3B => 60,  // F2
        0x3C => 61,  // F3
        0x3D => 62,  // F4
        0x3E => 63,  // F5
        0x3F => 64,  // F6
        0x40 => 65,  // F7
        0x41 => 66,  // F8
        0x42 => 67,  // F9
        0x43 => 68,  // F10
        0x44 => 87,  // F11
        0x45 => 88,  // F12
        0x4F => 106,  // Right Arrow
        0x50 => 105,  // Left Arrow
        0x51 => 108,  // Down Arrow
        0x52 => 103,  // Up Arrow
        0xE0 => 29,  // Left Ctrl
        0xE1 => 42,  // Left Shift
        0xE2 => 56,  // Left Alt
        0xE3 => 125,  // Left Meta
        0xE4 => 97,  // Right Ctrl
        0xE5 => 54,  // Right Shift
        0xE6 => 100,  // Right Alt
        0xE7 => 126,  // Right Meta
        _ => 0,
    }
}

/// Whether the table of `linux_to_hid_keycode` holds the code.
pub open spec fn spec_linux_to_hid_keycode_knows(linux: u32) -> bool {
    match linux {
        30 | 48 | 46 | 32 | 18 | 33 | 34 | 35 |
        23 | 36 | 37 | 38 | 50 | 49 | 24 | 25 |
        16 | 19 | 31 | 20 | 22 | 47 | 17 | 45 |
        21 | 44 | 2 | 3 | 4 | 5 | 6 | 7 |
        8 | 9 | 10 | 11 | 28 | 1 | 14 | 15 |
        57 | 12 | 13 | 26 | 27 | 43 | 39 | 40 |
        41 | 51 | 52 | 53 | 58 | 59 | 60 | 61 |
        62 | 63 | 64 | 65 | 66 | 67 | 68 | 87 |
        88 | 106 | 105 | 108 | 103 | 29 | 42 | 56 |
        125 | 97 | 54 | 100 | 126 => true,
        _ => false,
    }
}

/// The USB HID usage code of a Linux keycode; a code without one is passed through.
pub open spec fn spec_linux_to_hid_keycode(linux: u32) -> u32 {
    match linux {
        30 => 0x04,  // A
        48 => 0x05,  // B
        46 => 0x06,  // C
        32 => 0x07,  // D
        18 => 0x08,  // E
        33 => 0x09,  // F
        34 => 0x0A,  // G
        35 => 0x0B,  // H
        23 => 0x0C,  // I
        36 => 0x0D,  // J
        37 => 0x0E,  // K
        38 => 0x0F,  // L
        50 => 0x10,  // M
        49 => 0x11,  // N
        24 => 0x12,  // O
        25 => 0x13,  // P
        16 => 0x14,  // Q
        19 => 0x15,  // R
        31 => 0x16,  // S
        20 => 0x17,  // T
        22 => 0x18,  // U
        47 => 0x19,  // V
        17 => 0x1A,  // W
        45 => 0x1B,  // X
        21 => 0x1C,  // Y
        44 => 0x1D,  // Z
        2 => 0x1E,  // 1
        3 => 0x1F,  // 2
        4 => 0x20,  // 3
        5 => 0x21,  // 4
        6 => 0x22,  // 5
        7 => 0x23,  // 6
        8 => 0x24,  // 7
        9 => 0x25,  // 8
        10 => 0x26,  // 9
        11 => 0x27,  // 0
        28 => 0x28,  // Enter
        1 => 0x29,  // Escape
        14 => 0x2A,  // Backspace
        15 => 0x2B,  // Tab
        57 => 0x2C,  // Space
        12 => 0x2D,  // Minus
        13 => 0x2E,  // Equal
        26 => 0x2F,  // Left Bracket
        27 => 0x30,  // Right Bracket
        43 => 0x31,  // Backslash
        39 => 0x33,  // Semicolon
        40 => 0x34,  // Quote
        41 => 0x35,  // Grave
        51 => 0x36,  // Comma
        52 => 0x37,  // Period
        53 => 0x38,  // Slash
        58 => 0x39,  // Caps Lock
        59 => 0x3A,  // F1
        60 => 0x3B,  // F2
        61 => 0x3C,  // F3
        62 => 0x3D,  // F4
        63 => 0x3E,  // F5
        64 => 0x3F,  // F6
        65 => 0x40,  // F7
        66 => 0x41,  // F8
        67 => 0x42,  // F9
        68 => 0x43,  // F10
        87 => 0x44,  // F11
        88 => 0x45,  // F12
        106 => 0x4F,  // Right Arrow
        105 => 0x50,  // Left Arrow
        108 => 0x51,  // Down Arrow
        103 => 0x52,  // Up Arrow
        29 => 0xE0,  // Left Ctrl
        42 => 0xE1,  // Left Shift
        56 => 0xE2,  // Left Alt
        125 => 0xE3,  // Left Meta
        97 => 0xE4,  // Right Ctrl
        54 => 0xE5,  // Right Shift
        100 => 0xE6,  // Right Alt
        126 => 0xE7,  // Right Meta
        _ => linux,
    }
}

/// The USB HID usage code of a Linux keycode; a code without one is passed through.
#[verifier::when_used_as_spec(spec_linux_to_hid_keycode)]
pub fn linux_to_hid_keycode(linux: u32) -> (hid: u32)
    ensures
        hid == spec_linux_to_hid_keycode(linux),
{
    match linux {
        30 => 0x04,  // A
        48 => 0x05,  // B
        46 => 0x06,  // C
        32 => 0x07,  // D
        18 => 0x08,  // E
        33 => 0x09,  // F
        34 => 0x0A,  // G
        35 => 0x0B,  // H
        23 => 0x0C,  // I
        36 => 0x0D,  // J
        37 => 0x0E,  // K
        38 => 0x0F,  // L
        50 => 0x10,  // M
        49 => 0x11,  // N
        24 => 0x12,  // O
        25 => 0x13,  // P
        16 => 0x14,  // Q
        19 => 0x15,  // R
        31 => 0x16,  // S
        20 => 0x17,  // T
        22 => 0x18,  // U
        47 => 0x19,  // V
        17 => 0x1A,  // W
        45 => 0x1B,  // X
        21 => 0x1C,  // Y
        44 => 0x1D,  // Z
        2 => 0x1E,  // 1
        3 => 0x1F,  // 2
        4 => 0x20,  // 3
        5 => 0x21,  // 4
        6 => 0x22,  // 5
        7 => 0x23,  // 6
        8 => 0x24,  // 7
        9 => 0x25,  // 8
        10 => 0x26,  // 9
        11 => 0x27,  // 0
        28 => 0x28,  // Enter
        1 => 0x29,  // Escape
        14 => 0x2A,  // Backspace
        15 => 0x2B,  // Tab
        57 => 0x2C,  // Space
        12 => 0x2D,  // Minus
        13 => 0x2E,  // Equal
        26 => 0x2F,  // Left Bracket
        27 => 0x30,  // Right Bracket
        43 => 0x31,  // Backslash
        39 => 0x33,  // Semicolon
        40 => 0x34,  // Quote
        41 => 0x35,  // Grave
        51 => 0x36,  // Comma
        52 => 0x37,  // Period
        53 => 0x38,  // Slash
        58 => 0x39,  // Caps Lock
        59 => 0x3A,  // F1
        60 => 0x3B,  // F2
        61 => 0x3C,  // F3
        62 => 0x3D,  // F4
        63 => 0x3E,  // F5
        64 => 0x3F,  // F6
        65 => 0x40,  // F7
        66 => 0x41,  // F8
        67 => 0x42,  // F9
        68 => 0x43,  // F10
        87 => 0x44,  // F11
        88 => 0x45,  // F12
        106 => 0x4F,  // Right Arrow
        105 => 0x50,  // Left Arrow
        108 => 0x51,  // Down Arrow
        103 => 0x52,  // Up Arrow
        29 => 0xE0,  // Left Ctrl
        42 => 0xE1,  // Left Shift
        56 => 0xE2,  // Left Alt
        125 => 0xE3,  // Left Meta
        97 => 0xE4,  // Right Ctrl
        54 => 0xE5,  // Right Shift
        100 => 0xE6,  // Right Alt
        126 => 0xE7,  // Right Meta
        _ => linux,
    }
}

/// The two tables are each other's inverse: a code that one table holds
/// is taken by it to a code that the other holds and takes back.
pub proof fn lemma_linux_keycodes_invert(code: u32)
    ensures
        spec_hid_to_linux_keycode_knows(code) ==> spec_linux_to_hid_keycode_knows(spec_hid_to_linux_keycode(code)) && spec_linux_to_hid_keycode(
            spec_hid_to_linux_keycode(code),
        ) == code,
        spec_linux_to_hid_keycode_knows(code) ==> spec_hid_to_linux_keycode_knows(spec_linux_to_hid_keycode(code)) && spec_hid_to_linux_keycode(
            spec_linux_to_hid_keycode(code),
        ) == code,
{
}

/// The Linux keycode that stands for a character, and whether shift is
/// held for it; `None` for a character without one. A letter has the code
/// 30 plus its place in the alphabet, a digit from 1 to 9 the code one
/// above the digit.
pub open spec fn spec_char_to_keycode(c: char) -> Option<(u16, bool)> {
    if 'a' <= c <= 'z' {
        Some(((c as u32 - 'a' as u32 + 30) as u16, false))
    } else if 'A' <= c <= 'Z' {
        Some(((c as u32 - 'A' as u32 + 30) as u16, true))
    } else if '1' <= c <= '9' {
        Some(((c as u32 - '1' as u32 + 2) as u16, false))
    } else {
        match c {
            '0' => Some((11, false)),
            ' ' => Some((57, false)),
            '\n' => Some((28, false)),
            '\t' => Some((15, false)),
            '-' => Some((12, false)),
            '=' => Some((13, false)),
            '[' => Some((26, false)),
            ']' => Some((27, false)),
            ';' => Some((39, false)),
            '\'' => Some((40, false)),
            '`' => Some((41, false)),
            '\\' => Some((43, false)),
            ',' => Some((51, false)),
            '.' => Some((52, false)),
            '/' => Some((53, false)),
            '!' => Some((2, true)),
            '@' => Some((3, true)),
            '#' => Some((4, true)),
            '$' => Some((5, true)),
            '%' => Some((6, true)),
            '^' => Some((7, true)),
            '&' => Some((8, true)),
            '*' => Some((9, true)),
            '(' => Some((10, true)),
            ')' => Some((11, true)),
            '_' => Some((12, true)),
            '+' => Some((13, true)),
            '{' => Some((26, true)),
            '}' => Some((27, true)),
            ':' => Some((39, true)),
            '"' => Some((40, true)),
            '~' => Some((41, true)),
            '|' => Some((43, true)),
            '<' => Some((51, true)),
            '>' => Some((52, true)),
            '?' => Some((53, true)),
            _ => None,
        }
    }
}

/// Map a character to a Linux keycode and shift state.
pub fn char_to_keycode(c: char) -> (key: Option<(u16, bool)>)
    ensures
        key == spec_char_to_keycode(c),
{
    if 'a' <= c && c <= 'z' {
        Some(((c as u32 - 'a' as u32 + 30) as u16, false))
    } else if 'A' <= c && c <= 'Z' {
        Some(((c as u32 - 'A' as u32 + 30) as u16, true))
    } else if '1' <= c && c <= '9' {
        Some(((c as u32 - '1' as u32 + 2) as u16, false))
    } else {
        match c {
            '0' => Some((11, false)),
            ' ' => Some((57, false)),
            '\n' => Some((28, false)),
            '\t' => Some((15, false)),
            '-' => Some((12, false)),
            '=' => Some((13, false)),
            '[' => Some((26, false)),
            ']' => Some((27, false)),
            ';' => Some((39, false)),
            '\'' => Some((40, false)),
            '`' => Some((41, false)),
            '\\' => Some((43, false)),
            ',' => Some((51, false)),
            '.' => Some((52, false)),
            '/' => Some((53, false)),
            '!' => Some((2, true)),
            '@' => Some((3, true)),
            '#' => Some((4, true)),
            '$' => Some((5, true)),
            '%' => Some((6, true)),
            '^' => Some((7, true)),
            '&' => Some((8, true)),
            '*' => Some((9, true)),
            '(' => Some((10, true)),
            ')' => Some((11, true)),
            '_' => Some((12, true)),
            '+' => Some((13, true)),
            '{' => Some((26, true)),
            '}' => Some((27, true)),
            ':' => Some((39, true)),
            '"' => Some((40, true)),
            '~' => Some((41, true)),
            '|' => Some((43, true)),
            '<' => Some((51, true)),
            '>' => Some((52, true)),
            '?' => Some((53, true)),
            _ => None,
        }
    }
}

} // verus!
