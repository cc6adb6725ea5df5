//! The byte buffers of the `bytes` crate: what they hold, and what the calls
//! on them do to it.

use bytes::{BufMut, Bytes, BytesMut};
use vstd::prelude::*;

use crate::le::{le16, le32, le64};

verus! {

/// A shared, immutable byte buffer.
#[verifier::external_type_specification]
#[verifier::external_body]
pub struct ExBytes(bytes::Bytes);

/// A growable byte buffer.
#[verifier::external_type_specification]
#[verifier::external_body]
pub struct ExBytesMut(bytes::BytesMut);

/// How long a buffer may grow by appending. A vector grows by doubling, and its
/// allocation may not exceed `isize::MAX`.
pub open spec fn max_buffer() -> int {
    isize::MAX as int / 2
}

/// The bytes that a `Bytes` holds.
pub uninterp spec fn bytes_of(b: Bytes) -> Seq<u8>;

/// The bytes written to a `BytesMut` so far.
pub uninterp spec fn written(b: BytesMut) -> Seq<u8>;

/// `Bytes::clone`: a handle on the same bytes.
pub assume_specification[ <Bytes as Clone>::clone ](b: &Bytes) -> (r: Bytes)
    ensures
        bytes_of(r) == bytes_of(*b),
;

/// `Bytes::deref`: the bytes as a slice.
#[verifier::external_body]
pub(crate) fn bytes_slice(b: &Bytes) -> (r: &[u8])
    ensures
        r@ == bytes_of(*b),
{
    b
}

/// `Bytes::copy_from_slice`: a buffer of its own that holds the slice's bytes.
#[verifier::external_body]
pub(crate) fn bytes_copy_from_slice(s: &[u8]) -> (r: Bytes)
    ensures
        bytes_of(r) == s@,
{
    Bytes::copy_from_slice(s)
}

/// `Bytes::from` on a vector: the vector's bytes, taken over.
#[verifier::external_body]
pub(crate) fn bytes_from_vec(v: Vec<u8>) -> (r: Bytes)
    ensures
        bytes_of(r) == v@,
{
    Bytes::from(v)
}

/// `BytesMut::with_capacity`: nothing written yet. A capacity over `isize::MAX`
/// would panic.
#[verifier::external_body]
pub(crate) fn buf_with_capacity(capacity: usize) -> (r: BytesMut)
    requires
        capacity <= isize::MAX,
    ensures
        written(r) == Seq::<u8>::empty(),
{
    BytesMut::with_capacity(capacity)
}

/// `BytesMut::len`: how many bytes were written.
#[verifier::external_body]
pub(crate) fn buf_len(buf: &BytesMut) -> (r: usize)
    ensures
        r == written(*buf).len(),
{
    buf.len()
}

/// `BufMut::put_u8`: one byte at the end. Like every `put_*` it panics where
/// the allocation behind the buffer would exceed `isize::MAX`.
#[verifier::external_body]
pub(crate) fn put_u8(buf: &mut BytesMut, v: u8)
    requires
        written(*old(buf)).len() + 1 <= max_buffer(),
    ensures
        written(*final(buf)) == written(*old(buf)).push(v),
{
    buf.put_u8(v)
}

/// `BufMut::put_u16_le`: two bytes at the end, the low one first.
#[verifier::external_body]
pub(crate) fn put_u16_le(buf: &mut BytesMut, v: u16)
    requires
        written(*old(buf)).len() + 2 <= max_buffer(),
    ensures
        written(*final(buf)) == written(*old(buf)) + le16(v as int),
{
    buf.put_u16_le(v)
}

/// `BufMut::put_i16_le`: the two's complement pattern, the low byte first.
#[verifier::external_body]
pub(crate) fn put_i16_le(buf: &mut BytesMut, v: i16)
    requires
        written(*old(buf)).len() + 2 <= max_buffer(),
    ensures
        written(*final(buf)) == written(*old(buf)) + le16(v as int % 0x1_0000),
{
    buf.put_i16_le(v)
}

/// `BufMut::put_u32_le`: four bytes at the end, the low one first.
#[verifier::external_body]
pub(crate) fn put_u32_le(buf: &mut BytesMut, v: u32)
    requires
        written(*old(buf)).len() + 4 <= max_buffer(),
    ensures
        written(*final(buf)) == written(*old(buf)) + le32(v as int),
{
    buf.put_u32_le(v)
}

/// `BufMut::put_u64_le`: eight bytes at the end, the low one first.
#[verifier::external_body]
pub(crate) fn put_u64_le(buf: &mut BytesMut, v: u64)
    requires
        written(*old(buf)).len() + 8 <= max_buffer(),
    ensures
        written(*final(buf)) == written(*old(buf)) + le64(v as int),
{
    buf.put_u64_le(v)
}

/// `BufMut::put_slice`: the slice's bytes at the end.
#[verifier::external_body]
pub(crate) fn put_slice(buf: &mut BytesMut, s: &[u8])
    requires
        written(*old(buf)).len() + s@.len() <= max_buffer(),
    ensures
        written(*final(buf)) == written(*old(buf)) + s@,
{
    buf.put_slice(s)
}

/// `BytesMut::index_mut`: overwrites the byte at `at`.
#[verifier::external_body]
pub(crate) fn buf_set(buf: &mut BytesMut, at: usize, v: u8)
    requires
        at < written(*old(buf)).len(),
    ensures
        written(*final(buf)) == written(*old(buf)).update(at as int, v),
{
    buf[at] = v
}

/// `BytesMut::freeze`: the bytes written, now immutable.
#[verifier::external_body]
pub(crate) fn buf_freeze(buf: BytesMut) -> (r: Bytes)
    ensures
        bytes_of(r) == written(buf),
{
    buf.freeze()
}

} // verus!
