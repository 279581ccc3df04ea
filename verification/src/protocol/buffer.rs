//! The byte buffer that frames are written to and read from:
//! `bytes::BytesMut`, seen by the proofs as the sequence of bytes it holds.
//!
//! Every function here makes one call into the `bytes` crate. Its contract
//! is taken from that crate's documentation and is not proved.

use bytes::{Buf, BufMut, BytesMut};
use vstd::prelude::*;

verus! {

/// `bytes::BytesMut`, a growable byte buffer. Nothing inside it is visible
/// to the proofs but through [`contents`].
#[verifier::external_type_specification]
#[verifier::external_body]
pub struct ExBytesMut(bytes::BytesMut);

/// The bytes that a buffer holds, from the first to the last.
pub uninterp spec fn contents(buf: BytesMut) -> Seq<u8>;

/// The most bytes that one allocation can hold.
pub open spec fn max_len() -> int {
    isize::MAX as int
}

/// The four bytes of a number, the most significant first.
pub open spec fn be_bytes(n: u32) -> Seq<u8> {
    seq![
        (n / 0x100_0000) as u8,
        ((n / 0x1_0000) % 0x100) as u8,
        ((n / 0x100) % 0x100) as u8,
        (n % 0x100) as u8,
    ]
}

/// `BytesMut::with_capacity`: an empty buffer. The capacity is room that
/// was asked for, not content.
#[verifier::external_body]
pub(crate) fn with_capacity(capacity: usize) -> (buf: BytesMut)
    requires
        capacity <= max_len(),
    ensures
        contents(buf) == Seq::<u8>::empty(),
{
    BytesMut::with_capacity(capacity)
}

/// `BytesMut::len`: the number of bytes held.
#[verifier::external_body]
pub(crate) fn len(buf: &BytesMut) -> (n: usize)
    ensures
        n == contents(*buf).len(),
{
    buf.len()
}

/// Indexing through `Deref<Target = [u8]>`: the byte at position `i`.
#[verifier::external_body]
pub(crate) fn byte_at(buf: &BytesMut, i: usize) -> (b: u8)
    requires
        i < contents(*buf).len(),
    ensures
        b == contents(*buf)[i as int],
{
    buf[i]
}

/// `BytesMut::clear`: the buffer holds nothing afterwards.
#[verifier::external_body]
pub(crate) fn clear(buf: &mut BytesMut)
    ensures
        contents(*final(buf)) == Seq::<u8>::empty(),
{
    buf.clear()
}

/// `BytesMut::extend_from_slice`: the bytes of `extend` are appended. The
/// buffer grows as needed; the call panics only where the new length
/// passes what an allocation can hold.
#[verifier::external_body]
pub(crate) fn extend_from_slice(buf: &mut BytesMut, extend: &[u8])
    requires
        contents(*old(buf)).len() + extend@.len() <= max_len(),
    ensures
        contents(*final(buf)) == contents(*old(buf)) + extend@,
{
    buf.extend_from_slice(extend)
}

/// `BufMut::put_slice`: the bytes of `src` are appended.
#[verifier::external_body]
pub(crate) fn put_slice(buf: &mut BytesMut, src: &[u8])
    requires
        contents(*old(buf)).len() + src@.len() <= max_len(),
    ensures
        contents(*final(buf)) == contents(*old(buf)) + src@,
{
    buf.put_slice(src)
}

/// `BufMut::put_u8`: one byte is appended.
#[verifier::external_body]
pub(crate) fn put_u8(buf: &mut BytesMut, n: u8)
    requires
        contents(*old(buf)).len() + 1 <= max_len(),
    ensures
        contents(*final(buf)) == contents(*old(buf)).push(n),
{
    buf.put_u8(n)
}

/// `BufMut::put_u32`: the four bytes of `n` are appended in big-endian
/// order.
#[verifier::external_body]
pub(crate) fn put_u32(buf: &mut BytesMut, n: u32)
    requires
        contents(*old(buf)).len() + 4 <= max_len(),
    ensures
        contents(*final(buf)) == contents(*old(buf)) + be_bytes(n),
{
    buf.put_u32(n)
}

/// `Buf::advance`: the first `cnt` bytes are dropped. The call panics
/// where the buffer holds fewer.
#[verifier::external_body]
pub(crate) fn advance(buf: &mut BytesMut, cnt: usize)
    requires
        cnt <= contents(*old(buf)).len(),
    ensures
        contents(*final(buf)) == contents(*old(buf)).skip(cnt as int),
{
    buf.advance(cnt)
}

/// `BytesMut::split_to`: the first `at` bytes leave the buffer and come
/// back, here copied into a vector. The call panics where the buffer holds
/// fewer.
#[verifier::external_body]
pub(crate) fn split_to(buf: &mut BytesMut, at: usize) -> (front: Vec<u8>)
    requires
        at <= contents(*old(buf)).len(),
    ensures
        front@ == contents(*old(buf)).take(at as int),
        contents(*final(buf)) == contents(*old(buf)).skip(at as int),
{
    buf.split_to(at).to_vec()
}

} // verus!
