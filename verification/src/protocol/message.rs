//! Protocol message definitions: every message that two hosts exchange.

use vstd::prelude::*;

use crate::screen::EdgePosition;

verus! {

/// Mouse button identifiers.
#[derive(Debug, Clone, Copy, PartialEq, Eq, Structural)]
pub enum MouseButton {
    Left,
    Right,
    Middle,
    Button4,
    Button5,
}

impl MouseButton {
    /// The number that stands for the button on the wire and in state tables.
    pub open spec fn spec_code(self) -> u8 {
        match self {
            MouseButton::Left => 0,
            MouseButton::Right => 1,
            MouseButton::Middle => 2,
            MouseButton::Button4 => 3,
            MouseButton::Button5 => 4,
        }
    }

    #[verifier::when_used_as_spec(spec_code)]
    pub fn code(self) -> (c: u8)
        ensures
            c == self.spec_code(),
            c <= 4,
    {
        match self {
            MouseButton::Left => 0,
            MouseButton::Right => 1,
            MouseButton::Middle => 2,
            MouseButton::Button4 => 3,
            MouseButton::Button5 => 4,
        }
    }

    /// The button that a number stands for, if any.
    pub fn from_code(c: u8) -> (b: Option<MouseButton>)
        ensures
            c <= 4 <==> b.is_some(),
            b matches Some(button) ==> button.spec_code() == c,
    {
        match c {
            0 => Some(MouseButton::Left),
            1 => Some(MouseButton::Right),
            2 => Some(MouseButton::Middle),
            3 => Some(MouseButton::Button4),
            4 => Some(MouseButton::Button5),
            _ => None,
        }
    }
}

/// Keyboard modifier flags.
#[derive(Debug, Clone, Copy, PartialEq, Eq, Structural)]
pub struct Modifiers {
    pub shift: bool,
    pub ctrl: bool,
    pub alt: bool,
    /// Command on macOS, the Windows key on Windows.
    pub meta: bool,
    pub caps_lock: bool,
    pub num_lock: bool,
}

/// 1 if the flag is set, else 0.
pub open spec fn flag(b: bool) -> int {
    if b { 1 } else { 0 }
}

impl Modifiers {
    /// The packed byte: bit 0 shift, bit 1 ctrl, bit 2 alt, bit 3 meta,
    /// bit 4 caps lock, bit 5 num lock.
    pub open spec fn spec_to_bits(self) -> int {
        flag(self.shift) + 2 * flag(self.ctrl) + 4 * flag(self.alt) + 8 * flag(self.meta) + 16
            * flag(self.caps_lock) + 32 * flag(self.num_lock)
    }

    /// The flags that a packed byte holds; bits 6 and 7 are ignored.
    pub open spec fn spec_from_bits(bits: u8) -> Modifiers {
        Modifiers {
            shift: bits % 2 == 1,
            ctrl: (bits / 2) % 2 == 1,
            alt: (bits / 4) % 2 == 1,
            meta: (bits / 8) % 2 == 1,
            caps_lock: (bits / 16) % 2 == 1,
            num_lock: (bits / 32) % 2 == 1,
        }
    }

    pub fn to_bits(&self) -> (bits: u8)
        ensures
            bits == self.spec_to_bits(),
            bits < 64,
    {
        let mut bits: u8 = 0u8;
        if self.shift {
            let prev: u8 = bits;
            bits |= 0x01;
            assert(bits == prev + 1) by (bit_vector)
                requires
                    prev < 1,
                    bits == prev | 0x01,
            ;
        }
        if self.ctrl {
            let prev: u8 = bits;
            bits |= 0x02;
            assert(bits == prev + 2) by (bit_vector)
                requires
                    prev < 2,
                    bits == prev | 0x02,
            ;
        }
        if self.alt {
            let prev: u8 = bits;
            bits |= 0x04;
            assert(bits == prev + 4) by (bit_vector)
                requires
                    prev < 4,
                    bits == prev | 0x04,
            ;
        }
        if self.meta {
            let prev: u8 = bits;
            bits |= 0x08;
            assert(bits == prev + 8) by (bit_vector)
                requires
                    prev < 8,
                    bits == prev | 0x08,
            ;
        }
        if self.caps_lock {
            let prev: u8 = bits;
            bits |= 0x10;
            assert(bits == prev + 16) by (bit_vector)
                requires
                    prev < 16,
                    bits == prev | 0x10,
            ;
        }
        if self.num_lock {
            let prev: u8 = bits;
            bits |= 0x20;
            assert(bits == prev + 32) by (bit_vector)
                requires
                    prev < 32,
                    bits == prev | 0x20,
            ;
        }
        bits
    }

    pub fn from_bits(bits: u8) -> (m: Modifiers)
        ensures
            m == Modifiers::spec_from_bits(bits),
    {
        assert((bits & 0x01 != 0) == (bits % 2 == 1)) by (bit_vector);
        assert((bits & 0x02 != 0) == ((bits / 2) % 2 == 1)) by (bit_vector);
        assert((bits & 0x04 != 0) == ((bits / 4) % 2 == 1)) by (bit_vector);
        assert((bits & 0x08 != 0) == ((bits / 8) % 2 == 1)) by (bit_vector);
        assert((bits & 0x10 != 0) == ((bits / 16) % 2 == 1)) by (bit_vector);
        assert((bits & 0x20 != 0) == ((bits / 32) % 2 == 1)) by (bit_vector);
        Modifiers {
            shift: bits & 0x01 != 0,
            ctrl: bits & 0x02 != 0,
            alt: bits & 0x04 != 0,
            meta: bits & 0x08 != 0,
            caps_lock: bits & 0x10 != 0,
            num_lock: bits & 0x20 != 0,
        }
    }

    /// Unpacking a packed set of flags gives the flags back.
    pub proof fn lemma_bits_roundtrip(m: Modifiers)
        ensures
            0 <= m.spec_to_bits() < 64,
            Modifiers::spec_from_bits(m.spec_to_bits() as u8) == m,
    {
    }
}

impl Default for Modifiers {
    fn default() -> (m: Modifiers)
        ensures
            m == (Modifiers {
                shift: false,
                ctrl: false,
                alt: false,
                meta: false,
                caps_lock: false,
                num_lock: false,
            }),
    {
        Modifiers {
            shift: false,
            ctrl: false,
            alt: false,
            meta: false,
            caps_lock: false,
            num_lock: false,
        }
    }
}

/// Screen edge identifiers.
#[derive(Debug, Clone, Copy, PartialEq, Eq, Structural, Hash)]
pub enum ScreenEdge {
    Left,
    Right,
    Top,
    Bottom,
}

impl ScreenEdge {
    /// The number that stands for the edge on the wire and in state tables.
    pub open spec fn spec_code(self) -> u8 {
        match self {
            ScreenEdge::Left => 0,
            ScreenEdge::Right => 1,
            ScreenEdge::Top => 2,
            ScreenEdge::Bottom => 3,
        }
    }

    #[verifier::when_used_as_spec(spec_code)]
    pub fn code(self) -> (c: u8)
        ensures
            c == self.spec_code(),
            c <= 3,
    {
        match self {
            ScreenEdge::Left => 0,
            ScreenEdge::Right => 1,
            ScreenEdge::Top => 2,
            ScreenEdge::Bottom => 3,
        }
    }

    /// The edge that a number stands for, if any.
    pub fn from_code(c: u8) -> (e: Option<ScreenEdge>)
        ensures
            c <= 3 <==> e.is_some(),
            e matches Some(edge) ==> edge.spec_code() == c,
    {
        match c {
            0 => Some(ScreenEdge::Left),
            1 => Some(ScreenEdge::Right),
            2 => Some(ScreenEdge::Top),
            3 => Some(ScreenEdge::Bottom),
            _ => None,
        }
    }
}

/// Identity and geometry of one host.
#[derive(Debug)]
pub struct ScreenInfo {
    /// Unique host identifier.
    pub host_id: String,
    /// Human-readable host name.
    pub host_name: String,
    /// Screen width in pixels.
    pub width: u32,
    /// Screen height in pixels.
    pub height: u32,
    /// Horizontal resolution in dots per inch.
    pub dpi_x: u32,
    /// Vertical resolution in dots per inch.
    pub dpi_y: u32,
}

/// Resolution assumed for a screen that reports none.
pub const DEFAULT_DPI: u32 = 96;

impl ScreenInfo {
    pub fn new(host_id: String, host_name: String, width: u32, height: u32) -> (info: ScreenInfo)
        ensures
            info == (ScreenInfo {
                host_id,
                host_name,
                width,
                height,
                dpi_x: DEFAULT_DPI,
                dpi_y: DEFAULT_DPI,
            }),
    {
        ScreenInfo { host_id, host_name, width, height, dpi_x: DEFAULT_DPI, dpi_y: DEFAULT_DPI }
    }
}

impl Clone for ScreenInfo {
    fn clone(&self) -> (info: ScreenInfo)
        ensures
            info == *self,
    {
        ScreenInfo {
            host_id: self.host_id.clone(),
            host_name: self.host_name.clone(),
            width: self.width,
            height: self.height,
            dpi_x: self.dpi_x,
            dpi_y: self.dpi_y,
        }
    }
}

/// All possible protocol messages.
#[derive(Debug, Clone)]
#[allow(inconsistent_fields)]
pub enum Message {
    /// Protocol handshake, sent on connection establishment.
    Hello { protocol_version: u32, screen_info: ScreenInfo },
    /// Acknowledgment of `Hello`.
    HelloAck {
        protocol_version: u32,
        screen_info: ScreenInfo,
        accepted: bool,
        reason: Option<String>,
    },
    /// Relative mouse movement.
    MouseMoveRelative { dx: i32, dy: i32 },
    /// Absolute mouse position.
    MouseMoveAbsolute { x: i32, y: i32 },
    /// Mouse button press or release.
    MouseButton { button: MouseButton, pressed: bool },
    /// Mouse scroll wheel, horizontal and vertical.
    MouseScroll { dx: i32, dy: i32 },
    /// Keyboard key press. The keycode is a USB HID usage code.
    KeyDown { keycode: u32, character: Option<char>, modifiers: Modifiers },
    /// Keyboard key release.
    KeyUp { keycode: u32, modifiers: Modifiers },
    /// Control has entered this screen from an edge.
    EnterScreen { edge: ScreenEdge, position: EdgePosition },
    /// Control is leaving this screen via an edge.
    LeaveScreen { edge: ScreenEdge, position: EdgePosition },
    /// Clipboard data synchronization.
    ClipboardData { mime_type: String, data: Vec<u8> },
    /// Request clipboard data.
    ClipboardRequest,
    /// Grab keyboard focus (for hotkey activation).
    GrabKeyboard,
    /// Release keyboard focus.
    ReleaseKeyboard,
    /// Heartbeat to keep the connection alive.
    Heartbeat { timestamp: u64 },
    /// Response to a heartbeat.
    HeartbeatAck { timestamp: u64 },
    /// Graceful disconnect.
    Disconnect { reason: String },
    /// Error message.
    Error { code: u32, message: String },
}

impl Message {
    /// The one-byte type identifier of each variant.
    pub open spec fn spec_type_id(&self) -> u8 {
        match *self {
            Message::Hello { .. } => 0x01,
            Message::HelloAck { .. } => 0x02,
            Message::MouseMoveRelative { .. } => 0x10,
            Message::MouseMoveAbsolute { .. } => 0x11,
            Message::MouseButton { .. } => 0x12,
            Message::MouseScroll { .. } => 0x13,
            Message::KeyDown { .. } => 0x20,
            Message::KeyUp { .. } => 0x21,
            Message::EnterScreen { .. } => 0x30,
            Message::LeaveScreen { .. } => 0x31,
            Message::ClipboardData { .. } => 0x40,
            Message::ClipboardRequest => 0x41,
            Message::GrabKeyboard => 0x50,
            Message::ReleaseKeyboard => 0x51,
            Message::Heartbeat { .. } => 0xF0,
            Message::HeartbeatAck { .. } => 0xF1,
            Message::Disconnect { .. } => 0xFE,
            Message::Error { .. } => 0xFF,
        }
    }

    /// Whether the message carries mouse or keyboard input.
    pub open spec fn spec_is_input_event(&self) -> bool {
        0x10 <= self.spec_type_id() <= 0x21
    }

    /// Get the message type identifier.
    #[verifier::when_used_as_spec(spec_type_id)]
    pub fn type_id(&self) -> (id: u8)
        ensures
            id == self.spec_type_id(),
    {
        match self {
            Message::Hello { .. } => 0x01,
            Message::HelloAck { .. } => 0x02,
            Message::MouseMoveRelative { .. } => 0x10,
            Message::MouseMoveAbsolute { .. } => 0x11,
            Message::MouseButton { .. } => 0x12,
            Message::MouseScroll { .. } => 0x13,
            Message::KeyDown { .. } => 0x20,
            Message::KeyUp { .. } => 0x21,
            Message::EnterScreen { .. } => 0x30,
            Message::LeaveScreen { .. } => 0x31,
            Message::ClipboardData { .. } => 0x40,
            Message::ClipboardRequest => 0x41,
            Message::GrabKeyboard => 0x50,
            Message::ReleaseKeyboard => 0x51,
            Message::Heartbeat { .. } => 0xF0,
            Message::HeartbeatAck { .. } => 0xF1,
            Message::Disconnect { .. } => 0xFE,
            Message::Error { .. } => 0xFF,
        }
    }

    /// Check if this is an input event message.
    #[verifier::when_used_as_spec(spec_is_input_event)]
    pub fn is_input_event(&self) -> (b: bool)
        ensures
            b == self.spec_is_input_event(),
    {
        match self {
            Message::MouseMoveRelative { .. }
            | Message::MouseMoveAbsolute { .. }
            | Message::MouseButton { .. }
            | Message::MouseScroll { .. }
            | Message::KeyDown { .. }
            | Message::KeyUp { .. } => true,
            _ => false,
        }
    }
}

} // verus!
