//! The contract under which the codec uses the byte buffers of the `bytes`
//! crate. Nothing in this file is proved: each item states what the named
//! function of `bytes` does, and the rest of the library is verified against
//! these statements.
//!
//! A buffer is modelled by the sequence of bytes it holds. Its capacity is
//! not modelled, and running out of memory is outside these contracts, as it
//! is for `Vec`.

use bytes::{Buf, BufMut, Bytes, BytesMut};
use vstd::prelude::*;

verus! {

#[verifier::external_type_specification]
#[verifier::external_body]
pub struct ExBytesMut(bytes::BytesMut);

#[verifier::external_type_specification]
#[verifier::external_body]
pub struct ExBytes(bytes::Bytes);

/// The bytes that a `BytesMut` holds, from its read position to its end.
pub uninterp spec fn mut_contents(buf: BytesMut) -> Seq<u8>;

/// The bytes that a frozen `Bytes` holds.
pub uninterp spec fn frozen_contents(bytes: Bytes) -> Seq<u8>;

/// The two bytes of `n`, low byte first.
pub open spec fn u16_le(n: u16) -> Seq<u8> {
    seq![(n & 0xff) as u8, (n >> 8) as u8]
}

/// The four bytes of `n`, low byte first.
pub open spec fn u32_le(n: u32) -> Seq<u8> {
    seq![(n & 0xff) as u8, ((n >> 8) & 0xff) as u8, ((n >> 16) & 0xff) as u8, (n >> 24) as u8]
}

/// The number whose low byte is `lo` and whose high byte is `hi`.
pub open spec fn u16_from_le(lo: u8, hi: u8) -> u16 {
    (lo as u16) | ((hi as u16) << 8)
}

/// The number that the first four bytes of `b` spell, low byte first.
pub open spec fn u32_from_le(b: Seq<u8>) -> u32
    recommends
        b.len() >= 4,
{
    (b[0] as u32) | ((b[1] as u32) << 8) | ((b[2] as u32) << 16) | ((b[3] as u32) << 24)
}

/// `BytesMut::with_capacity`: the new buffer holds no bytes. The capacity is
/// an allocation request and must be one that `Vec` accepts.
#[verifier::external_body]
pub(crate) fn with_capacity(capacity: usize) -> (buf: BytesMut)
    requires
        capacity <= isize::MAX,
    ensures
        mut_contents(buf) == Seq::<u8>::empty(),
{
    BytesMut::with_capacity(capacity)
}

/// `BytesMut::new`: the new buffer holds no bytes.
#[verifier::external_body]
pub(crate) fn new_buffer() -> (buf: BytesMut)
    ensures
        mut_contents(buf) == Seq::<u8>::empty(),
{
    BytesMut::new()
}

/// `BytesMut::len`: the number of bytes held.
#[verifier::external_body]
pub(crate) fn len(buf: &BytesMut) -> (n: usize)
    ensures
        n == mut_contents(*buf).len(),
{
    buf.len()
}

/// `AsRef<[u8]>` of `BytesMut`: a slice over exactly the bytes held.
#[verifier::external_body]
pub(crate) fn as_slice(buf: &BytesMut) -> (s: &[u8])
    ensures
        s@ == mut_contents(*buf),
{
    buf.as_ref()
}

/// `Buf::advance` of `BytesMut`: drops the first `cnt` bytes. It panics when
/// fewer are held.
#[verifier::external_body]
pub(crate) fn advance(buf: &mut BytesMut, cnt: usize)
    requires
        cnt <= mut_contents(*old(buf)).len(),
    ensures
        mut_contents(*final(buf)) == mut_contents(*old(buf)).skip(cnt as int),
{
    buf.advance(cnt)
}

/// `BytesMut::split_to`: hands out the first `at` bytes and keeps the rest.
/// It panics when fewer are held.
#[verifier::external_body]
pub(crate) fn split_to(buf: &mut BytesMut, at: usize) -> (head: BytesMut)
    requires
        at <= mut_contents(*old(buf)).len(),
    ensures
        mut_contents(head) == mut_contents(*old(buf)).take(at as int),
        mut_contents(*final(buf)) == mut_contents(*old(buf)).skip(at as int),
{
    buf.split_to(at)
}

/// `Buf::get_u8`: reads the first byte and drops it. It panics on an empty
/// buffer.
#[verifier::external_body]
pub(crate) fn get_u8(buf: &mut BytesMut) -> (b: u8)
    requires
        mut_contents(*old(buf)).len() >= 1,
    ensures
        b == mut_contents(*old(buf))[0],
        mut_contents(*final(buf)) == mut_contents(*old(buf)).skip(1),
{
    buf.get_u8()
}

/// `Buf::get_u16_le`: reads the first two bytes as a little-endian number and
/// drops them. It panics when fewer are held.
#[verifier::external_body]
pub(crate) fn get_u16_le(buf: &mut BytesMut) -> (n: u16)
    requires
        mut_contents(*old(buf)).len() >= 2,
    ensures
        n == u16_from_le(mut_contents(*old(buf))[0], mut_contents(*old(buf))[1]),
        mut_contents(*final(buf)) == mut_contents(*old(buf)).skip(2),
{
    buf.get_u16_le()
}

/// `Buf::get_u32_le`: reads the first four bytes as a little-endian number
/// and drops them. It panics when fewer are held.
#[verifier::external_body]
pub(crate) fn get_u32_le(buf: &mut BytesMut) -> (n: u32)
    requires
        mut_contents(*old(buf)).len() >= 4,
    ensures
        n == u32_from_le(mut_contents(*old(buf))),
        mut_contents(*final(buf)) == mut_contents(*old(buf)).skip(4),
{
    buf.get_u32_le()
}

/// `BufMut::put_u8` of `BytesMut`: appends one byte. The buffer grows as
/// needed, up to the largest allocation.
#[verifier::external_body]
pub(crate) fn put_u8(buf: &mut BytesMut, b: u8)
    requires
        mut_contents(*old(buf)).len() + 1 <= isize::MAX,
    ensures
        mut_contents(*final(buf)) == mut_contents(*old(buf)).push(b),
{
    buf.put_u8(b)
}

/// `BufMut::put_slice` of `BytesMut`: appends the bytes of `src`. The buffer
/// grows as needed, up to the largest allocation.
#[verifier::external_body]
pub(crate) fn put_slice(buf: &mut BytesMut, src: &[u8])
    requires
        mut_contents(*old(buf)).len() + src@.len() <= isize::MAX,
    ensures
        mut_contents(*final(buf)) == mut_contents(*old(buf)) + src@,
{
    buf.put_slice(src)
}

/// `BufMut::put_u16_le` of `BytesMut`: appends the two bytes of `n`, low byte
/// first.
#[verifier::external_body]
pub(crate) fn put_u16_le(buf: &mut BytesMut, n: u16)
    requires
        mut_contents(*old(buf)).len() + 2 <= isize::MAX,
    ensures
        mut_contents(*final(buf)) == mut_contents(*old(buf)) + u16_le(n),
{
    buf.put_u16_le(n)
}

/// `BufMut::put_u32_le` of `BytesMut`: appends the four bytes of `n`, low
/// byte first.
#[verifier::external_body]
pub(crate) fn put_u32_le(buf: &mut BytesMut, n: u32)
    requires
        mut_contents(*old(buf)).len() + 4 <= isize::MAX,
    ensures
        mut_contents(*final(buf)) == mut_contents(*old(buf)) + u32_le(n),
{
    buf.put_u32_le(n)
}

/// `BytesMut::freeze`: the immutable buffer holds the same bytes.
#[verifier::external_body]
pub(crate) fn freeze(buf: BytesMut) -> (bytes: Bytes)
    ensures
        frozen_contents(bytes) == mut_contents(buf),
{
    buf.freeze()
}

} // verus!
