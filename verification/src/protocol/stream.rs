//! The codec over a whole byte stream: what a decoder hands out when it is
//! run until it needs more bytes, fed chunk by chunk as a socket delivers
//! them, and the laws that tie it to the encoder.

use vstd::prelude::*;

use crate::protocol::buffer::be_bytes;
use crate::protocol::codec::{
    be_value,
    decode_payload,
    decode_step,
    frame_bytes,
    header_bytes,
    header_length,
    header_sequence,
    magic,
    next_sequence,
    DecodeState,
    DecodeStep,
    Decoded,
    RawFrameView,
    HEADER_SIZE,
    MAX_MESSAGE_SIZE,
};

verus! {

/// What a decoder hands out when it is called until it stops: the frames
/// in the order they came, the decoder and the bytes left behind, and the
/// refusal that stopped it, if one did.
pub struct Drained {
    pub frames: Seq<RawFrameView>,
    pub state: DecodeState,
    pub rest: Seq<u8>,
    pub error: Option<Decoded>,
}

/// The measure by which repeated decoding ends: a payload state is one
/// call away from a frame boundary.
pub open spec fn pending(state: DecodeState) -> nat {
    if state is Payload {
        1
    } else {
        0
    }
}

/// Calls the decoder on a buffer that holds `bytes` until it reports
/// something other than a frame.
pub open spec fn drain(state: DecodeState, bytes: Seq<u8>) -> Drained
    decreases bytes.len(), pending(state),
{
    let step = decode_step(state, bytes);
    match step.decoded {
        Decoded::Frame(frame) => {
            if step.rest.len() < bytes.len() || (step.rest.len() == bytes.len() && pending(
                step.state,
            ) < pending(state)) {
                let later = drain(step.state, step.rest);
                Drained { frames: seq![frame] + later.frames, ..later }
            } else {
                Drained { frames: seq![frame], state: step.state, rest: step.rest, error: None }
            }
        },
        Decoded::NeedMore => Drained {
            frames: Seq::empty(),
            state: step.state,
            rest: step.rest,
            error: None,
        },
        _ => Drained {
            frames: Seq::empty(),
            state: step.state,
            rest: step.rest,
            error: Some(step.decoded),
        },
    }
}

/// The chunks of a stream, joined.
pub open spec fn concat(chunks: Seq<Seq<u8>>) -> Seq<u8>
    decreases chunks.len(),
{
    if chunks.len() == 0 {
        Seq::empty()
    } else {
        chunks[0] + concat(chunks.skip(1))
    }
}

/// Feeds a decoder chunk by chunk: each chunk is appended to what the
/// buffer still holds and the decoder is drained, until the chunks end or
/// the decoder refuses. With no chunk to come it is drained of what the
/// buffer holds.
pub open spec fn feed(state: DecodeState, held: Seq<u8>, chunks: Seq<Seq<u8>>) -> Drained
    decreases chunks.len(),
{
    if chunks.len() == 0 {
        drain(state, held)
    } else {
        let first = drain(state, held + chunks[0]);
        if first.error is Some {
            first
        } else {
            let later = feed(first.state, first.rest, chunks.skip(1));
            Drained { frames: first.frames + later.frames, ..later }
        }
    }
}

/// The bytes of a run of frames, one after the other.
pub open spec fn stream_bytes(frames: Seq<RawFrameView>) -> Seq<u8>
    decreases frames.len(),
{
    if frames.len() == 0 {
        Seq::empty()
    } else {
        frame_bytes(frames[0].message_type, frames[0].sequence, frames[0].payload) + stream_bytes(
            frames.skip(1),
        )
    }
}

/// The sequence number of the frame that an encoder makes `count` frames
/// after the one numbered `start`.
pub open spec fn sequence_after(start: u32, count: nat) -> u32
    decreases count,
{
    if count == 0 {
        start
    } else {
        next_sequence(sequence_after(start, (count - 1) as nat))
    }
}

/// Four bytes written in big-endian order read back as the number.
pub proof fn lemma_be_roundtrip(n: u32)
    ensures
        be_bytes(n).len() == 4,
        be_value(be_bytes(n)[0], be_bytes(n)[1], be_bytes(n)[2], be_bytes(n)[3]) == n,
{
    let b0 = n / 0x100_0000;
    let b1 = (n / 0x1_0000) % 0x100;
    let b2 = (n / 0x100) % 0x100;
    let b3 = n % 0x100;
    assert(b0 < 0x100 && b0 * 0x100_0000 + b1 * 0x1_0000 + b2 * 0x100 + b3 == n) by (bit_vector)
        requires
            b0 == n / 0x100_0000,
            b1 == (n / 0x1_0000) % 0x100,
            b2 == (n / 0x100) % 0x100,
            b3 == n % 0x100,
    ;
}

/// A decoder at a frame boundary, given the bytes that the encoder wrote
/// for a frame and whatever follows them, hands out that frame, is at a
/// frame boundary again, and leaves what follows in the buffer.
pub proof fn lemma_decode_encoded(
    message_type: u8,
    sequence: u32,
    payload: Seq<u8>,
    tail: Seq<u8>,
)
    requires
        payload.len() <= MAX_MESSAGE_SIZE,
    ensures
        decode_step(DecodeState::Header, frame_bytes(message_type, sequence, payload) + tail)
            == (DecodeStep {
            state: DecodeState::Header,
            rest: tail,
            decoded: Decoded::Frame(RawFrameView { sequence, message_type, payload }),
        }),
{
    let length = payload.len() as u32;
    let header = header_bytes(message_type, length, sequence);
    let bytes = frame_bytes(message_type, sequence, payload) + tail;
    lemma_be_roundtrip(length);
    lemma_be_roundtrip(sequence);
    assert(header.len() == HEADER_SIZE);
    assert(bytes.take(4) =~= magic());
    assert(bytes[4] == message_type);
    assert(bytes[5] == be_bytes(length)[0] && bytes[6] == be_bytes(length)[1] && bytes[7]
        == be_bytes(length)[2] && bytes[8] == be_bytes(length)[3]);
    assert(bytes[9] == be_bytes(sequence)[0] && bytes[10] == be_bytes(sequence)[1] && bytes[11]
        == be_bytes(sequence)[2] && bytes[12] == be_bytes(sequence)[3]);
    assert(header_length(bytes) == length);
    assert(header_sequence(bytes) == sequence);
    let body = bytes.skip(HEADER_SIZE as int);
    assert(body =~= payload + tail);
    assert(body.take(length as int) =~= payload);
    assert(body.skip(length as int) =~= tail);
}

/// At a frame boundary with a whole header in the buffer, the decoder
/// refuses the magic bytes exactly where the first four bytes differ from
/// them, and refuses the size exactly where the magic bytes are right and
/// the length field is over the limit.
pub proof fn lemma_header_refusals(bytes: Seq<u8>)
    requires
        bytes.len() >= HEADER_SIZE,
    ensures
        decode_step(DecodeState::Header, bytes).decoded is InvalidMagic <==> bytes.take(4)
            != magic(),
        decode_step(DecodeState::Header, bytes).decoded is TooLarge <==> bytes.take(4) == magic()
            && header_length(bytes) > MAX_MESSAGE_SIZE,
        decode_step(DecodeState::Header, bytes).decoded is TooLarge ==> decode_step(
            DecodeState::Header,
            bytes,
        ).decoded == Decoded::TooLarge(header_length(bytes)),
        !(decode_step(DecodeState::Header, bytes).decoded is NeedMore || decode_step(
            DecodeState::Header,
            bytes,
        ).decoded is Frame) ==> decode_step(DecodeState::Header, bytes).state
            == DecodeState::Header && decode_step(DecodeState::Header, bytes).rest == bytes,
{
}

/// Waiting for a payload the decoder never refuses.
pub proof fn lemma_payload_never_refused(
    message_type: u8,
    length: usize,
    sequence: u32,
    bytes: Seq<u8>,
)
    ensures
        decode_payload(message_type, length, sequence, bytes).decoded is NeedMore
            || decode_payload(message_type, length, sequence, bytes).decoded is Frame,
{
}

/// The sequence numbers of a run count up from the first, modulo 2^32.
pub proof fn lemma_sequence_after(start: u32, count: nat)
    ensures
        sequence_after(start, count) == (start + count) % 0x1_0000_0000,
    decreases count,
{
    if count > 0 {
        lemma_sequence_after(start, (count - 1) as nat);
        let previous = (start + count - 1) % 0x1_0000_0000;
        assert((start + count) % 0x1_0000_0000 == if previous == 0xFFFF_FFFF {
            0
        } else {
            previous + 1
        }) by (nonlinear_arith)
            requires
                previous == (start + count - 1) % 0x1_0000_0000,
                start + count - 1 >= 0,
        ;
    }
}

/// Within any run of fewer than 2^32 frames no sequence number comes
/// twice: each frame's number is the one before it plus one, modulo 2^32.
pub proof fn lemma_sequence_distinct(start: u32, earlier: nat, later: nat)
    requires
        earlier < later,
        later - earlier < 0x1_0000_0000,
    ensures
        sequence_after(start, later) != sequence_after(start, earlier),
        sequence_after(start, earlier + 1) == next_sequence(sequence_after(start, earlier)),
{
    lemma_sequence_after(start, earlier);
    lemma_sequence_after(start, later);
    assert((start + later) % 0x1_0000_0000 != (start + earlier) % 0x1_0000_0000)
        by (nonlinear_arith)
        requires
            earlier < later,
            later - earlier < 0x1_0000_0000,
    ;
}

/// A call of the decoder that reports a frame or a refusal reports the
/// same when more bytes follow in the buffer, and leaves them behind.
pub proof fn lemma_step_append(state: DecodeState, bytes: Seq<u8>, more: Seq<u8>)
    requires
        !(decode_step(state, bytes).decoded is NeedMore),
    ensures
        decode_step(state, bytes + more) == (DecodeStep {
            rest: decode_step(state, bytes).rest + more,
            ..decode_step(state, bytes)
        }),
{
    let whole = bytes + more;
    match state {
        DecodeState::Header => {
            assert(whole.take(4) =~= bytes.take(4));
            assert(header_length(whole) == header_length(bytes));
            assert(header_sequence(whole) == header_sequence(bytes));
            if bytes.take(4) == magic() && header_length(bytes) <= MAX_MESSAGE_SIZE {
                let length = header_length(bytes) as usize;
                let body = bytes.skip(HEADER_SIZE as int);
                assert(whole.skip(HEADER_SIZE as int) =~= body + more);
                assert((body + more).take(length as int) =~= body.take(length as int));
                assert((body + more).skip(length as int) =~= body.skip(length as int) + more);
            } else {
                assert(decode_step(state, whole).rest =~= decode_step(state, bytes).rest + more);
            }
        },
        DecodeState::Payload { message_type, length, sequence } => {
            assert(whole.take(length as int) =~= bytes.take(length as int));
            assert(whole.skip(length as int) =~= bytes.skip(length as int) + more);
        },
    }
}

/// A call of the decoder that waits for more bytes has left the decoder
/// and the buffer such that the next call, once more bytes have arrived,
/// reports what a single call on all the bytes would have.
pub proof fn lemma_step_resume(state: DecodeState, bytes: Seq<u8>, more: Seq<u8>)
    requires
        decode_step(state, bytes).decoded is NeedMore,
    ensures
        decode_step(decode_step(state, bytes).state, decode_step(state, bytes).rest + more)
            == decode_step(state, bytes + more),
{
    let whole = bytes + more;
    if state is Header && bytes.len() >= HEADER_SIZE {
        assert(whole.take(4) =~= bytes.take(4));
        assert(whole.skip(HEADER_SIZE as int) =~= bytes.skip(HEADER_SIZE as int) + more);
    }
}

/// A call that hands out a frame brings the decoder nearer to the end of
/// the buffer, so that draining goes on after every frame.
pub proof fn lemma_frame_advances(state: DecodeState, bytes: Seq<u8>)
    requires
        decode_step(state, bytes).decoded is Frame,
    ensures
        decode_step(state, bytes).state == DecodeState::Header,
        decode_step(state, bytes).rest.len() < bytes.len() || (decode_step(state, bytes).rest.len()
            == bytes.len() && state is Payload),
        drain(state, bytes).frames == seq![decode_step(state, bytes).decoded->Frame_0] + drain(
            DecodeState::Header,
            decode_step(state, bytes).rest,
        ).frames,
        drain(state, bytes).state == drain(
            DecodeState::Header,
            decode_step(state, bytes).rest,
        ).state,
        drain(state, bytes).rest == drain(DecodeState::Header, decode_step(state, bytes).rest).rest,
        drain(state, bytes).error == drain(
            DecodeState::Header,
            decode_step(state, bytes).rest,
        ).error,
{
}

/// Draining a buffer to which more bytes have been appended gives the
/// frames of draining it before, followed by those of draining what was
/// left together with the new bytes; a refusal stays a refusal.
pub proof fn lemma_drain_append(state: DecodeState, bytes: Seq<u8>, more: Seq<u8>)
    ensures
        ({
            let first = drain(state, bytes);
            let whole = drain(state, bytes + more);
            let later = drain(first.state, first.rest + more);
            if first.error is Some {
                whole.frames == first.frames && whole.error == first.error
            } else {
                &&& whole.frames == first.frames + later.frames
                &&& whole.state == later.state
                &&& whole.rest == later.rest
                &&& whole.error == later.error
            }
        }),
    decreases bytes.len(), pending(state),
{
    let step = decode_step(state, bytes);
    let first = drain(state, bytes);
    let whole = drain(state, bytes + more);
    match step.decoded {
        Decoded::Frame(frame) => {
            lemma_frame_advances(state, bytes);
            lemma_step_append(state, bytes, more);
            lemma_frame_advances(state, bytes + more);
            lemma_drain_append(step.state, step.rest, more);
            let first_later = drain(step.state, step.rest);
            let whole_later = drain(step.state, step.rest + more);
            if first.error is Some {
                assert(whole.frames =~= first.frames);
            } else {
                let later = drain(first.state, first.rest + more);
                assert(whole.frames =~= first.frames + later.frames);
            }
        },
        Decoded::NeedMore => {
            lemma_step_resume(state, bytes, more);
            assert(first.frames + drain(first.state, first.rest + more).frames =~= drain(
                first.state,
                first.rest + more,
            ).frames);
        },
        _ => {
            lemma_step_append(state, bytes, more);
        },
    }
}

/// Joining the chunks after the first to the first gives all of them joined.
proof fn lemma_concat_held(held: Seq<u8>, chunks: Seq<Seq<u8>>)
    requires
        chunks.len() > 0,
    ensures
        held + concat(chunks) == (held + chunks[0]) + concat(chunks.skip(1)),
{
    assert(held + concat(chunks) =~= (held + chunks[0]) + concat(chunks.skip(1)));
}

/// However a stream is cut into chunks, a decoder fed chunk by chunk hands
/// out the frames, in the order, that it hands out when given the whole
/// stream at once; it stops at the same refusal, or else ends in the same
/// state with the same bytes left.
pub proof fn lemma_feed_is_drain(state: DecodeState, held: Seq<u8>, chunks: Seq<Seq<u8>>)
    ensures
        ({
            let fed = feed(state, held, chunks);
            let whole = drain(state, held + concat(chunks));
            &&& fed.frames == whole.frames
            &&& fed.error == whole.error
            &&& fed.error is None ==> fed.state == whole.state && fed.rest == whole.rest
        }),
    decreases chunks.len(),
{
    let fed = feed(state, held, chunks);
    if chunks.len() == 0 {
        assert(held + concat(chunks) =~= held);
    } else {
        let first = drain(state, held + chunks[0]);
        lemma_concat_held(held, chunks);
        lemma_drain_append(state, held + chunks[0], concat(chunks.skip(1)));
        if first.error is None {
            lemma_feed_is_drain(first.state, first.rest, chunks.skip(1));
        }
    }
}

/// Draining the bytes of a run of frames hands out those frames, in
/// their order, and ends at a frame boundary with an empty buffer.
pub proof fn lemma_drain_stream(frames: Seq<RawFrameView>)
    requires
        forall|i: int| 0 <= i < frames.len() ==> (#[trigger] frames[i]).payload.len()
            <= MAX_MESSAGE_SIZE,
    ensures
        drain(DecodeState::Header, stream_bytes(frames)) == (Drained {
            frames,
            state: DecodeState::Header,
            rest: Seq::empty(),
            error: None,
        }),
    decreases frames.len(),
{
    let bytes = stream_bytes(frames);
    if frames.len() == 0 {
        assert(drain(DecodeState::Header, bytes).frames =~= frames);
    } else {
        let head = frames[0];
        let tail = stream_bytes(frames.skip(1));
        assert(head.payload.len() <= MAX_MESSAGE_SIZE);
        lemma_decode_encoded(head.message_type, head.sequence, head.payload, tail);
        lemma_frame_advances(DecodeState::Header, bytes);
        assert forall|i: int| 0 <= i < frames.skip(1).len() implies (#[trigger] frames.skip(
            1,
        )[i]).payload.len() <= MAX_MESSAGE_SIZE by {
            assert(frames.skip(1)[i] == frames[i + 1]);
        }
        lemma_drain_stream(frames.skip(1));
        assert(seq![head] + frames.skip(1) =~= frames);
    }
}

/// The frames that an encoder wrote come out of a decoder in the order
/// they went in, whole and unchanged, however the bytes between the two
/// were cut into chunks.
pub proof fn lemma_chunked_stream(frames: Seq<RawFrameView>, chunks: Seq<Seq<u8>>)
    requires
        forall|i: int| 0 <= i < frames.len() ==> (#[trigger] frames[i]).payload.len()
            <= MAX_MESSAGE_SIZE,
        concat(chunks) == stream_bytes(frames),
    ensures
        feed(DecodeState::Header, Seq::empty(), chunks) == (Drained {
            frames,
            state: DecodeState::Header,
            rest: Seq::empty(),
            error: None,
        }),
{
    lemma_feed_is_drain(DecodeState::Header, Seq::empty(), chunks);
    lemma_drain_stream(frames);
    assert(Seq::<u8>::empty() + concat(chunks) =~= concat(chunks));
}

} // verus!
