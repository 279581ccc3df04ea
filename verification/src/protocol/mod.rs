//! The wire protocol: message definitions and the frame codec.
//!
//! A frame is a 13-byte header followed by the payload:
//! 4 magic bytes, 1 byte message type, 4 bytes payload length and
//! 4 bytes sequence number, the integers in big-endian order.

use vstd::prelude::*;

pub mod buffer;
pub mod codec;
pub mod error_codes;
pub mod message;
pub mod stream;

pub use codec::{CodecError, DecodeState, Decoder, Encoder, Frame, RawFrame};
pub use message::{Message, Modifiers, MouseButton, ScreenEdge, ScreenInfo};

verus! {

/// Protocol version for compatibility checking.
pub const PROTOCOL_VERSION: u32 = 1;

/// Default port of the service.
pub const DEFAULT_PORT: u16 = 24800;

/// Magic bytes that open every frame: "CNET".
pub const MAGIC_BYTES: [u8; 4] = [0x43, 0x4E, 0x45, 0x54];

} // verus!
