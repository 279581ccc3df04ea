//! Key codes of Windows: the mapping between USB HID usage codes,
//! which key events carry between hosts, and the virtual key codes of Windows.

use vstd::prelude::*;

verus! {

/// Whether the table of `windows_vk_to_hid` holds the code.
pub open spec fn spec_windows_vk_to_hid_knows(vk: u32) -> bool {
    match vk {
        0x41 | 0x42 | 0x43 | 0x44 | 0x45 | 0x46 | 0x47 | 0x48 |
        0x49 | 0x4A | 0x4B | 0x4C | 0x4D | 0x4E | 0x4F | 0x50 |
        0x51 | 0x52 | 0x53 | 0x54 | 0x55 | 0x56 | 0x57 | 0x58 |
        0x59 | 0x5A | 0x31 | 0x32 | 0x33 | 0x34 | 0x35 | 0x36 |
        0x37 | 0x38 | 0x39 | 0x30 | 0x0D | 0x1B | 0x08 | 0x09 |
        0x20 | 0x27 | 0x25 | 0x28 | 0x26 | 0xA2 | 0xA0 | 0xA4 |
        0x5B | 0xA3 | 0xA1 | 0xA5 | 0x5C => true,
        _ => false,
    }
}

/// The USB HID usage code of a Windows virtual key code; a code without one is passed through.
pub open spec fn spec_windows_vk_to_hid(vk: u32) -> u32 {
    match vk {
        0x41 => 0x04,  // A
        0x42 => 0x05,  // B
        0x43 => 0x06,  // C
        0x44 => 0x07,  // D
        0x45 => 0x08,  // E
        0x46 => 0x09,  // F
        0x47 => 0x0A,  // G
        0x48 => 0x0B,  // H
        0x49 => 0x0C,  // I
        0x4A => 0x0D,  // J
        0x4B => 0x0E,  // K
        0x4C => 0x0F,  // L
        0x4D => 0x10,  // M
        0x4E => 0x11,  // N
        0x4F => 0x12,  // O
        0x50 => 0x13,  // P
        0x51 => 0x14,  // Q
        0x52 => 0x15,  // R
        0x53 => 0x16,  // S
        0x54 => 0x17,  // T
        0x55 => 0x18,  // U
        0x56 => 0x19,  // V
        0x57 => 0x1A,  // W
        0x58 => 0x1B,  // X
        0x59 => 0x1C,  // Y
        0x5A => 0x1D,  // Z
        0x31 => 0x1E,  // 1
        0x32 => 0x1F,  // 2
        0x33 => 0x20,  // 3
        0x34 => 0x21,  // 4
        0x35 => 0x22,  // 5
        0x36 => 0x23,  // 6
        0x37 => 0x24,  // 7
        0x38 => 0x25,  // 8
        0x39 => 0x26,  // 9
        0x30 => 0x27,  // 0
        0x0D => 0x28,  // Enter
        0x1B => 0x29,  // Escape
        0x08 => 0x2A,  // Backspace
        0x09 => 0x2B,  // Tab
        0x20 => 0x2C,  // Space
        0x27 => 0x4F,  // Right Arrow
        0x25 => 0x50,  // Left Arrow
        0x28 => 0x51,  // Down Arrow
        0x26 => 0x52,  // Up Arrow
        0xA2 => 0xE0,  // Left Ctrl
        0xA0 => 0xE1,  // Left Shift
        0xA4 => 0xE2,  // Left Alt
        0x5B => 0xE3,  // Left Win
        0xA3 => 0xE4,  // Right Ctrl
        0xA1 => 0xE5,  // Right Shift
        0xA5 => 0xE6,  // Right Alt
        0x5C => 0xE7,  // Right Win
        _ => vk,
    }
}

/// The USB HID usage code of a Windows virtual key code; a code without one is passed through.
#[verifier::when_used_as_spec(spec_windows_vk_to_hid)]
pub fn windows_vk_to_hid(vk: u32) -> (hid: u32)
    ensures
        hid == spec_windows_vk_to_hid(vk),
{
    match vk {
        0x41 => 0x04,  // A
        0x42 => 0x05,  // B
        0x43 => 0x06,  // C
        0x44 => 0x07,  // D
        0x45 => 0x08,  // E
        0x46 => 0x09,  // F
        0x47 => 0x0A,  // G
        0x48 => 0x0B,  // H
        0x49 => 0x0C,  // I
        0x4A => 0x0D,  // J
        0x4B => 0x0E,  // K
        0x4C => 0x0F,  // L
        0x4D => 0x10,  // M
        0x4E => 0x11,  // N
        0x4F => 0x12,  // O
        0x50 => 0x13,  // P
        0x51 => 0x14,  // Q
        0x52 => 0x15,  // R
        0x53 => 0x16,  // S
        0x54 => 0x17,  // T
        0x55 => 0x18,  // U
        0x56 => 0x19,  // V
        0x57 => 0x1A,  // W
        0x58 => 0x1B,  // X
        0x59 => 0x1C,  // Y
        0x5A => 0x1D,  // Z
        0x31 => 0x1E,  // 1
        0x32 => 0x1F,  // 2
        0x33 => 0x20,  // 3
        0x34 => 0x21,  // 4
        0x35 => 0x22,  // 5
        0x36 => 0x23,  // 6
        0x37 => 0x24,  // 7
        0x38 => 0x25,  // 8
        0x39 => 0x26,  // 9
        0x30 => 0x27,  // 0
        0x0D => 0x28,  // Enter
        0x1B => 0x29,  // Escape
        0x08 => 0x2A,  // Backspace
        0x09 => 0x2B,  // Tab
        0x20 => 0x2C,  // Space
        0x27 => 0x4F,  // Right Arrow
        0x25 => 0x50,  // Left Arrow
        0x28 => 0x51,  // Down Arrow
        0x26 => 0x52,  // Up Arrow
        0xA2 => 0xE0,  // Left Ctrl
        0xA0 => 0xE1,  // Left Shift
        0xA4 => 0xE2,  // Left Alt
        0x5B => 0xE3,  // Left Win
        0xA3 => 0xE4,  // Right Ctrl
        0xA1 => 0xE5,  // Right Shift
        0xA5 => 0xE6,  // Right Alt
        0x5C => 0xE7,  // Right Win
        _ => vk,
    }
}

/// Whether the table of `hid_to_windows_vk` holds the code.
pub open spec fn spec_hid_to_windows_vk_knows(hid: u32) -> bool {
    match hid {
        0x04 | 0x05 | 0x06 | 0x07 | 0x08 | 0x09 | 0x0A | 0x0B |
        0x0C | 0x0D | 0x0E | 0x0F | 0x10 | 0x11 | 0x12 | 0x13 |
        0x14 | 0x15 | 0x16 | 0x17 | 0x18 | 0x19 | 0x1A | 0x1B |
        0x1C | 0x1D | 0x1E | 0x1F | 0x20 | 0x21 | 0x22 | 0x23 |
        0x24 | 0x25 | 0x26 | 0x27 | 0x28 | 0x29 | 0x2A | 0x2B |
        0x2C | 0x4F | 0x50 | 0x51 | 0x52 | 0xE0 | 0xE1 | 0xE2 |
        0xE3 | 0xE4 | 0xE5 | 0xE6 | 0xE7 => true,
        _ => false,
    }
}

/// The Windows virtual key code of a USB HID usage code; a code without one is passed through.
pub open spec fn spec_hid_to_windows_vk(hid: u32) -> u32 {
    match hid {
        0x04 => 0x41,  // A
        0x05 => 0x42,  // B
        0x06 => 0x43,  // C
        0x07 => 0x44,  // D
        0x08 => 0x45,  // E
        0x09 => 0x46,  // F
        0x0A => 0x47,  // G
        0x0B => 0x48,  // H
        0x0C => 0x49,  // I
        0x0D => 0x4A,  // J
        0x0E => 0x4B,  // K
        0x0F => 0x4C,  // L
        0x10 => 0x4D,  // M
        0x11 => 0x4E,  // N
        0x12 => 0x4F,  // O
        0x13 => 0x50,  // P
        0x14 => 0x51,  // Q
        0x15 => 0x52,  // R
        0x16 => 0x53,  // S
        0x17 => 0x54,  // T
        0x18 => 0x55,  // U
        0x19 => 0x56,  // V
        0x1A => 0x57,  // W
        0x1B => 0x58,  // X
        0x1C => 0x59,  // Y
        0x1D => 0x5A,  // Z
        0x1E => 0x31,  // 1
        0x1F => 0x32,  // 2
        0x20 => 0x33,  // 3
        0x21 => 0x34,  // 4
        0x22 => 0x35,  // 5
        0x23 => 0x36,  // 6
        0x24 => 0x37,  // 7
        0x25 => 0x38,  // 8
        0x26 => 0x39,  // 9
        0x27 => 0x30,  // 0
        0x28 => 0x0D,  // Enter
        0x29 => 0x1B,  // Escape
        0x2A => 0x08,  // Backspace
        0x2B => 0x09,  // Tab
        0x2C => 0x20,  // Space
        0x4F => 0x27,  // Right Arrow
        0x50 => 0x25,  // Left Arrow
        0x51 => 0x28,  // Down Arrow
        0x52 => 0x26,  // Up Arrow
        0xE0 => 0xA2,  // Left Ctrl
        0xE1 => 0xA0,  // Left Shift
        0xE2 => 0xA4,  // Left Alt
        0xE3 => 0x5B,  // Left Win
        0xE4 => 0xA3,  // Right Ctrl
        0xE5 => 0xA1,  // Right Shift
        0xE6 => 0xA5,  // Right Alt
        0xE7 => 0x5C,  // Right Win
        _ => hid,
    }
}

/// The Windows virtual key code of a USB HID usage code; a code without one is passed through.
#[verifier::when_used_as_spec(spec_hid_to_windows_vk)]
pub fn hid_to_windows_vk(hid: u32) -> (vk: u32)
    ensures
        vk == spec_hid_to_windows_vk(hid),
{
    match hid {
        0x04 => 0x41,  // A
        0x05 => 0x42,  // B
        0x06 => 0x43,  // C
        0x07 => 0x44,  // D
        0x08 => 0x45,  // E
        0x09 => 0x46,  // F
        0x0A => 0x47,  // G
        0x0B => 0x48,  // H
        0x0C => 0x49,  // I
        0x0D => 0x4A,  // J
        0x0E => 0x4B,  // K
        0x0F => 0x4C,  // L
        0x10 => 0x4D,  // M
        0x11 => 0x4E,  // N
        0x12 => 0x4F,  // O
        0x13 => 0x50,  // P
        0x14 => 0x51,  // Q
        0x15 => 0x52,  // R
        0x16 => 0x53,  // S
        0x17 => 0x54,  // T
        0x18 => 0x55,  // U
        0x19 => 0x56,  // V
        0x1A => 0x57,  // W
        0x1B => 0x58,  // X
        0x1C => 0x59,  // Y
        0x1D => 0x5A,  // Z
        0x1E => 0x31,  // 1
        0x1F => 0x32,  // 2
        0x20 => 0x33,  // 3
        0x21 => 0x34,  // 4
        0x22 => 0x35,  // 5
        0x23 => 0x36,  // 6
        0x24 => 0x37,  // 7
        0x25 => 0x38,  // 8
        0x26 => 0x39,  // 9
        0x27 => 0x30,  // 0
        0x28 => 0x0D,  // Enter
        0x29 => 0x1B,  // Escape
        0x2A => 0x08,  // Backspace
        0x2B => 0x09,  // Tab
        0x2C => 0x20,  // Space
        0x4F => 0x27,  // Right Arrow
        0x50 => 0x25,  // Left Arrow
        0x51 => 0x28,  // Down Arrow
        0x52 => 0x26,  // Up Arrow
        0xE0 => 0xA2,  // Left Ctrl
        0xE1 => 0xA0,  // Left Shift
        0xE2 => 0xA4,  // Left Alt
        0xE3 => 0x5B,  // Left Win
        0xE4 => 0xA3,  // Right Ctrl
        0xE5 => 0xA1,  // Right Shift
        0xE6 => 0xA5,  // Right Alt
        0xE7 => 0x5C,  // Right Win
        _ => hid,
    }
}

/// The two tables are each other's inverse: a code that one table holds
/// is taken by it to a code that the other holds and takes back.
pub proof fn lemma_windows_keycodes_invert(code: u32)
    ensures
        spec_windows_vk_to_hid_knows(code) ==> spec_hid_to_windows_vk_knows(spec_windows_vk_to_hid(code)) && spec_hid_to_windows_vk(
            spec_windows_vk_to_hid(code),
        ) == code,
        spec_hid_to_windows_vk_knows(code) ==> spec_windows_vk_to_hid_knows(spec_hid_to_windows_vk(code)) && spec_windows_vk_to_hid(
            spec_hid_to_windows_vk(code),
        ) == code,
{
}

} // verus!
