//! The byte buffers of the `bytes` crate, as this library uses them.
//!
//! The verifier does not look inside `bytes`. Every contract in this file
//! states what the crate's documentation and source promise, and none of
//! them is proved.
//!
//! A `BytesMut` grows as bytes are put into it. Growing panics when the new
//! length does not fit the address space; every function here that puts
//! bytes leaves that case out by its `requires`.

use bytes::{Buf, BufMut, BytesMut};
use vstd::prelude::*;

verus! {

/// `bytes::BytesMut`, a growable byte buffer. Opaque to the verifier.
#[verifier::external_type_specification]
#[verifier::external_body]
pub struct ExBytesMut(bytes::BytesMut);

/// The bytes that a buffer holds, first to last.
pub uninterp spec fn contents(buffer: BytesMut) -> Seq<u8>;

/// The big-endian pair of bytes of a sixteen-bit value.
pub open spec fn be_bytes(value: u16) -> Seq<u8> {
    seq![(value / 256) as u8, (value % 256) as u8]
}

/// The sixteen-bit value whose big-endian bytes are `high`, `low`.
pub open spec fn be_value(high: u8, low: u8) -> u16 {
    (high as int * 256 + low as int) as u16
}

/// The sixteen-bit value whose little-endian bytes are `low`, `high`.
pub open spec fn le_value(low: u8, high: u8) -> u16 {
    (high as int * 256 + low as int) as u16
}

/// `BytesMut::new`: the new buffer holds no bytes.
pub assume_specification[ BytesMut::new ]() -> (buffer: BytesMut)
    ensures
        contents(buffer) == Seq::<u8>::empty(),
;

/// `BytesMut::with_capacity`: the new buffer holds no bytes, whatever room
/// was asked for.
pub assume_specification[ BytesMut::with_capacity ](capacity: usize) -> (buffer: BytesMut)
    requires
        capacity <= isize::MAX,
    ensures
        contents(buffer) == Seq::<u8>::empty(),
;

/// `BytesMut::len`: the number of bytes held.
pub assume_specification[ BytesMut::len ](buffer: &BytesMut) -> (n: usize)
    ensures
        n == contents(*buffer).len(),
;

/// `BufMut::put_u8` on a `BytesMut`: appends the one byte.
#[verifier::external_body]
pub(crate) fn put_u8(buffer: &mut BytesMut, byte: u8)
    requires
        contents(*old(buffer)).len() + 1 <= isize::MAX,
    ensures
        contents(*final(buffer)) == contents(*old(buffer)).push(byte),
{
    buffer.put_u8(byte);
}

/// `BufMut::put_u16` on a `BytesMut`: appends the value's two bytes, high
/// byte first.
#[verifier::external_body]
pub(crate) fn put_u16(buffer: &mut BytesMut, value: u16)
    requires
        contents(*old(buffer)).len() + 2 <= isize::MAX,
    ensures
        contents(*final(buffer)) == contents(*old(buffer)) + be_bytes(value),
{
    buffer.put_u16(value);
}

/// `BufMut::put` on a `BytesMut`, with a byte slice as its source: appends the
/// whole slice.
#[verifier::external_body]
pub(crate) fn put(buffer: &mut BytesMut, source: &[u8])
    requires
        contents(*old(buffer)).len() + source@.len() <= isize::MAX,
    ensures
        contents(*final(buffer)) == contents(*old(buffer)) + source@,
{
    buffer.put(source);
}

/// `Deref::deref` of a `BytesMut`: the held bytes as a slice.
#[verifier::external_body]
pub(crate) fn as_slice(buffer: &BytesMut) -> (bytes: &[u8])
    ensures
        bytes@ == contents(*buffer),
{
    &buffer[..]
}

/// `Buf::advance` on a byte slice: drops the first `count` bytes. The crate
/// panics when fewer remain, which `requires` leaves out.
#[verifier::external_body]
pub(crate) fn advance(bytes: &[u8], count: usize) -> (rest: &[u8])
    requires
        count <= bytes@.len(),
    ensures
        rest@ == bytes@.skip(count as int),
{
    let mut cursor = bytes;
    cursor.advance(count);
    cursor
}

/// `Buf::get_u8` on a byte slice: the first byte, and the slice past it.
#[verifier::external_body]
pub(crate) fn get_u8(bytes: &[u8]) -> (out: (u8, &[u8]))
    requires
        bytes@.len() >= 1,
    ensures
        out.0 == bytes@[0],
        out.1@ == bytes@.skip(1),
{
    let mut cursor = bytes;
    let value = cursor.get_u8();
    (value, cursor)
}

/// `Buf::get_u16` on a byte slice: the first two bytes read as a big-endian
/// value, and the slice past them.
#[verifier::external_body]
pub(crate) fn get_u16(bytes: &[u8]) -> (out: (u16, &[u8]))
    requires
        bytes@.len() >= 2,
    ensures
        out.0 == be_value(bytes@[0], bytes@[1]),
        out.1@ == bytes@.skip(2),
{
    let mut cursor = bytes;
    let value = cursor.get_u16();
    (value, cursor)
}

/// `Buf::get_u16_le` on a byte slice: the first two bytes read as a
/// little-endian value, and the slice past them.
#[verifier::external_body]
pub(crate) fn get_u16_le(bytes: &[u8]) -> (out: (u16, &[u8]))
    requires
        bytes@.len() >= 2,
    ensures
        out.0 == le_value(bytes@[0], bytes@[1]),
        out.1@ == bytes@.skip(2),
{
    let mut cursor = bytes;
    let value = cursor.get_u16_le();
    (value, cursor)
}

} // verus!
