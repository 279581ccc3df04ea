//! Protocol codec: framing of serialized messages.
//!
//! The encoder frames a message's serialized payload; the decoder is a
//! streaming state machine that takes one frame at a time out of a buffer
//! that the caller fills as bytes arrive.

use bytes::BytesMut;
use vstd::prelude::*;

use crate::protocol::buffer;
use crate::protocol::buffer::{be_bytes, contents, max_len};
use crate::protocol::message::Message;
use crate::text::{decimal, joined, spec_decimal};

verus! {

/// Maximum message size (10 MiB).
pub const MAX_MESSAGE_SIZE: usize = 10 * 1024 * 1024;

/// Header size: magic (4) + type (1) + length (4) + sequence (4).
pub const HEADER_SIZE: usize = 13;

/// The magic bytes as a sequence.
pub open spec fn magic() -> Seq<u8> {
    seq![0x43u8, 0x4Eu8, 0x45u8, 0x54u8]
}

/// The number that four bytes hold, the most significant first.
pub open spec fn be_value(b0: u8, b1: u8, b2: u8, b3: u8) -> int {
    b0 as int * 0x100_0000 + b1 as int * 0x1_0000 + b2 as int * 0x100 + b3 as int
}

/// The header of a frame.
pub open spec fn header_bytes(message_type: u8, length: u32, sequence: u32) -> Seq<u8> {
    magic().push(message_type) + be_bytes(length) + be_bytes(sequence)
}

/// The bytes of a whole frame: header, then payload.
pub open spec fn frame_bytes(message_type: u8, sequence: u32, payload: Seq<u8>) -> Seq<u8>
    recommends
        payload.len() <= MAX_MESSAGE_SIZE,
{
    header_bytes(message_type, payload.len() as u32, sequence) + payload
}

/// Codec errors.
#[derive(Debug)]
pub enum CodecError {
    /// The bytes at a frame boundary are not the magic bytes.
    InvalidMagic,
    /// A payload of the first size is over the limit, the second.
    MessageTooLarge(usize, usize),
    /// The stream failed; the text is the cause.
    Io(String),
    /// A payload could not be serialized or deserialized; the text is the
    /// cause.
    Serialization(String),
    /// The stream ended inside a message.
    Incomplete,
}

impl CodecError {
    /// The error in words.
    pub open spec fn spec_message(&self) -> Seq<char> {
        match *self {
            CodecError::InvalidMagic => "Invalid magic bytes"@,
            CodecError::MessageTooLarge(size, limit) => "Message too large: "@ + spec_decimal(
                size as nat,
            ) + " bytes (max: "@ + spec_decimal(limit as nat) + ")"@,
            CodecError::Io(cause) => "IO error: "@ + cause@,
            CodecError::Serialization(cause) => "Serialization error: "@ + cause@,
            CodecError::Incomplete => "Incomplete message"@,
        }
    }

    /// The error in words.
    pub fn message(&self) -> (text: String)
        ensures
            text@ == self.spec_message(),
    {
        match self {
            CodecError::InvalidMagic => String::from_str("Invalid magic bytes"),
            CodecError::MessageTooLarge(size, limit) => {
                let mut text = String::from_str("Message too large: ");
                text.append(decimal(*size as u64).as_str());
                text.append(" bytes (max: ");
                text.append(decimal(*limit as u64).as_str());
                text.append(")");
                text
            },
            CodecError::Io(cause) => joined("IO error: ", cause.as_str()),
            CodecError::Serialization(cause) => joined("Serialization error: ", cause.as_str()),
            CodecError::Incomplete => String::from_str("Incomplete message"),
        }
    }
}

/// Message frame with metadata.
#[derive(Debug, Clone)]
pub struct Frame {
    /// Sequence number for ordering.
    pub sequence: u32,
    /// The actual message.
    pub message: Message,
}

impl Frame {
    pub fn new(sequence: u32, message: Message) -> (frame: Frame)
        ensures
            frame.sequence == sequence,
            frame.message == message,
    {
        Frame { sequence, message }
    }
}

/// A frame as it comes off the wire: the header's fields and the payload,
/// still serialized.
#[derive(Debug, Clone)]
pub struct RawFrame {
    /// Sequence number for ordering.
    pub sequence: u32,
    /// The type identifier that the header announces.
    pub message_type: u8,
    /// The serialized message.
    pub payload: Vec<u8>,
}

/// A raw frame as plain values.
pub struct RawFrameView {
    pub sequence: u32,
    pub message_type: u8,
    pub payload: Seq<u8>,
}

impl View for RawFrame {
    type V = RawFrameView;

    open spec fn view(&self) -> RawFrameView {
        RawFrameView {
            sequence: self.sequence,
            message_type: self.message_type,
            payload: self.payload@,
        }
    }
}

/// The sequence number that follows `sequence`: one more, wrapping to zero
/// after the largest.
pub open spec fn next_sequence(sequence: u32) -> u32 {
    if sequence == u32::MAX {
        0
    } else {
        (sequence + 1) as u32
    }
}

/// Encodes messages into the wire format.
pub struct Encoder {
    sequence: u32,
}

impl View for Encoder {
    /// The sequence number of the next frame.
    type V = u32;

    closed spec fn view(&self) -> u32 {
        self.sequence
    }
}

impl Encoder {
    pub fn new() -> (encoder: Encoder)
        ensures
            encoder@ == 0,
    {
        Encoder { sequence: 0 }
    }

    /// Encode a message into a buffer: appends the frame that carries
    /// `payload`, the serialized form of `message`, under the encoder's
    /// sequence number.
    pub fn encode(&mut self, message: &Message, payload: &[u8], buf: &mut BytesMut) -> (result:
        Result<(), CodecError>)
        requires
            payload@.len() <= MAX_MESSAGE_SIZE ==> contents(*old(buf)).len() + HEADER_SIZE
                + payload@.len() <= max_len(),
        ensures
            payload@.len() > MAX_MESSAGE_SIZE ==> {
                &&& result == Err::<(), CodecError>(
                    CodecError::MessageTooLarge(payload@.len() as usize, MAX_MESSAGE_SIZE),
                )
                &&& final(self)@ == old(self)@
                &&& contents(*final(buf)) == contents(*old(buf))
            },
            payload@.len() <= MAX_MESSAGE_SIZE ==> {
                &&& result is Ok
                &&& final(self)@ == next_sequence(old(self)@)
                &&& contents(*final(buf)) == contents(*old(buf)) + frame_bytes(
                    message.spec_type_id(),
                    old(self)@,
                    payload@,
                )
            },
    {
        if payload.len() > MAX_MESSAGE_SIZE {
            return Err(CodecError::MessageTooLarge(payload.len(), MAX_MESSAGE_SIZE));
        }
        let ghost before = contents(*buf);

        // Write header
        buffer::put_slice(buf, &crate::protocol::MAGIC_BYTES);
        buffer::put_u8(buf, message.type_id());
        buffer::put_u32(buf, payload.len() as u32);
        buffer::put_u32(buf, self.sequence);

        // Write payload
        buffer::put_slice(buf, payload);

        proof {
            assert(crate::protocol::MAGIC_BYTES@ =~= magic());
            assert(contents(*buf) =~= before + frame_bytes(
                message.spec_type_id(),
                self.sequence,
                payload@,
            ));
        }
        self.sequence = self.sequence.wrapping_add(1);
        Ok(())
    }

    /// Get a frame with the current sequence number.
    pub fn create_frame(&mut self, message: Message) -> (frame: Frame)
        ensures
            frame.sequence == old(self)@,
            frame.message == message,
            final(self)@ == next_sequence(old(self)@),
    {
        let frame = Frame::new(self.sequence, message);
        self.sequence = self.sequence.wrapping_add(1);
        frame
    }
}

impl Default for Encoder {
    fn default() -> (encoder: Encoder)
        ensures
            encoder@ == 0,
    {
        Encoder::new()
    }
}

/// Where a decoder is in the stream.
#[derive(Debug, Clone, Copy, PartialEq, Eq, Structural)]
pub enum DecodeState {
    /// At a frame boundary, waiting for a header.
    Header,
    /// Past a header, waiting for the payload it announced.
    Payload { message_type: u8, length: usize, sequence: u32 },
}

/// What one call of the decoder reports.
pub enum Decoded {
    /// More bytes are needed.
    NeedMore,
    /// A whole frame was taken out of the buffer.
    Frame(RawFrameView),
    /// The bytes at the frame boundary are not the magic bytes.
    InvalidMagic,
    /// The header announces a payload of this size, over the limit.
    TooLarge(int),
}

/// The decoder after a call, the bytes left in the buffer, and the report.
pub struct DecodeStep {
    pub state: DecodeState,
    pub rest: Seq<u8>,
    pub decoded: Decoded,
}

/// The length that the header at the start of `bytes` announces.
pub open spec fn header_length(bytes: Seq<u8>) -> int
    recommends
        bytes.len() >= HEADER_SIZE,
{
    be_value(bytes[5], bytes[6], bytes[7], bytes[8])
}

/// The sequence number that the header at the start of `bytes` holds.
pub open spec fn header_sequence(bytes: Seq<u8>) -> int
    recommends
        bytes.len() >= HEADER_SIZE,
{
    be_value(bytes[9], bytes[10], bytes[11], bytes[12])
}

/// A call of the decoder that waits for a payload.
pub open spec fn decode_payload(
    message_type: u8,
    length: usize,
    sequence: u32,
    bytes: Seq<u8>,
) -> DecodeStep {
    if bytes.len() < length {
        DecodeStep {
            state: DecodeState::Payload { message_type, length, sequence },
            rest: bytes,
            decoded: Decoded::NeedMore,
        }
    } else {
        DecodeStep {
            state: DecodeState::Header,
            rest: bytes.skip(length as int),
            decoded: Decoded::Frame(
                RawFrameView { sequence, message_type, payload: bytes.take(length as int) },
            ),
        }
    }
}

/// One call of the decoder in `state` on a buffer that holds `bytes`.
///
/// At a frame boundary it waits for a whole header, refuses one that does
/// not open with the magic bytes or that announces too large a payload,
/// takes the header and goes on to the payload. Waiting for a payload, it
/// waits for all of it, then takes it and hands the frame out. A refusal
/// and a wait for the header leave state and buffer as they were.
pub open spec fn decode_step(state: DecodeState, bytes: Seq<u8>) -> DecodeStep {
    match state {
        DecodeState::Header => {
            if bytes.len() < HEADER_SIZE {
                DecodeStep { state, rest: bytes, decoded: Decoded::NeedMore }
            } else if bytes.take(4) != magic() {
                DecodeStep { state, rest: bytes, decoded: Decoded::InvalidMagic }
            } else if header_length(bytes) > MAX_MESSAGE_SIZE {
                DecodeStep { state, rest: bytes, decoded: Decoded::TooLarge(header_length(bytes)) }
            } else {
                decode_payload(
                    bytes[4],
                    header_length(bytes) as usize,
                    header_sequence(bytes) as u32,
                    bytes.skip(HEADER_SIZE as int),
                )
            }
        },
        DecodeState::Payload { message_type, length, sequence } => decode_payload(
            message_type,
            length,
            sequence,
            bytes,
        ),
    }
}

/// Whether a result of the decoder is the given report.
pub open spec fn reports(result: Result<Option<RawFrame>, CodecError>, decoded: Decoded) -> bool {
    match decoded {
        Decoded::NeedMore => result matches Ok(None),
        Decoded::Frame(frame) => result matches Ok(Some(f)) && f@ == frame,
        Decoded::InvalidMagic => result matches Err(CodecError::InvalidMagic),
        Decoded::TooLarge(length) => result matches Err(CodecError::MessageTooLarge(size, limit))
            && size == length && limit == MAX_MESSAGE_SIZE,
    }
}

/// Decodes messages from the wire format.
pub struct Decoder {
    state: DecodeState,
}

impl View for Decoder {
    type V = DecodeState;

    closed spec fn view(&self) -> DecodeState {
        self.state
    }
}

/// Reads four bytes of the buffer as a big-endian number.
fn read_u32(buf: &BytesMut, at: usize) -> (n: u32)
    requires
        at + 4 <= contents(*buf).len(),
        at + 4 <= usize::MAX,
    ensures
        n == be_value(
            contents(*buf)[at as int],
            contents(*buf)[at + 1],
            contents(*buf)[at + 2],
            contents(*buf)[at + 3],
        ),
{
    let b0: u32 = buffer::byte_at(buf, at) as u32;
    let b1: u32 = buffer::byte_at(buf, at + 1) as u32;
    let b2: u32 = buffer::byte_at(buf, at + 2) as u32;
    let b3: u32 = buffer::byte_at(buf, at + 3) as u32;
    b0 * 0x100_0000 + b1 * 0x1_0000 + b2 * 0x100 + b3
}

/// Whether the buffer opens with the magic bytes.
fn has_magic(buf: &BytesMut) -> (ok: bool)
    requires
        contents(*buf).len() >= 4,
    ensures
        ok == (contents(*buf).take(4) == magic()),
{
    let ok = buffer::byte_at(buf, 0) == crate::protocol::MAGIC_BYTES[0] && buffer::byte_at(buf, 1)
        == crate::protocol::MAGIC_BYTES[1] && buffer::byte_at(buf, 2)
        == crate::protocol::MAGIC_BYTES[2] && buffer::byte_at(buf, 3)
        == crate::protocol::MAGIC_BYTES[3];
    proof {
        let front = contents(*buf).take(4);
        if ok {
            assert(front =~= magic());
        } else {
            assert(front[0] == contents(*buf)[0]);
            assert(front[1] == contents(*buf)[1]);
            assert(front[2] == contents(*buf)[2]);
            assert(front[3] == contents(*buf)[3]);
        }
    }
    ok
}

impl Decoder {
    pub fn new() -> (decoder: Decoder)
        ensures
            decoder@ == DecodeState::Header,
    {
        Decoder { state: DecodeState::Header }
    }

    /// Attempt to decode a frame from the buffer.
    /// Returns `Ok(None)` if more data is needed.
    pub fn decode(&mut self, buf: &mut BytesMut) -> (result: Result<Option<RawFrame>, CodecError>)
        ensures
            ({
                let step = decode_step(old(self)@, contents(*old(buf)));
                &&& final(self)@ == step.state
                &&& contents(*final(buf)) == step.rest
                &&& reports(result, step.decoded)
            }),
    {
        let ghost goal = decode_step(self@, contents(*buf));
        loop
            invariant
                goal == decode_step(old(self)@, contents(*old(buf))),
                decode_step(self@, contents(*buf)) == goal,
            decreases
                (if self@ is Header { 1int } else { 0int }),
        {
            match self.state {
                DecodeState::Header => {
                    if buffer::len(buf) < HEADER_SIZE {
                        return Ok(None);
                    }
                    // Check magic bytes

                    if !has_magic(buf) {
                        return Err(CodecError::InvalidMagic);
                    }
                    let message_type: u8 = buffer::byte_at(buf, 4);
                    let length: usize = read_u32(buf, 5) as usize;
                    let sequence: u32 = read_u32(buf, 9);

                    if length > MAX_MESSAGE_SIZE {
                        return Err(CodecError::MessageTooLarge(length, MAX_MESSAGE_SIZE));
                    }
                    buffer::advance(buf, HEADER_SIZE);

                    self.state = DecodeState::Payload { message_type, length, sequence };
                },
                DecodeState::Payload { message_type, length, sequence } => {
                    if buffer::len(buf) < length {
                        return Ok(None);
                    }
                    let payload: Vec<u8> = buffer::split_to(buf, length);

                    self.state = DecodeState::Header;

                    return Ok(Some(RawFrame { sequence, message_type, payload }));
                },
            }
        }
    }
}

impl Default for Decoder {
    fn default() -> (decoder: Decoder)
        ensures
            decoder@ == DecodeState::Header,
    {
        Decoder::new()
    }
}

} // verus!
