//! The byte containers of the `bytes` crate and the fixed-width readers and
//! writers of the `byteorder` crate, as the rest of the library sees them.
//!
//! Everything in this file is trusted: the contracts below are read off the
//! source of `bytes` 0.4.12 and `byteorder` 1.5.0, not proved.
use vstd::prelude::*;
use byteorder::{BigEndian, ByteOrder, LittleEndian};
use bytes::{Bytes, BytesMut};
use crate::le::{be_value, le_bytes, le_value};

verus! {

/// `bytes::BytesMut`, a growable byte buffer.
#[verifier::external_type_specification]
#[verifier::external_body]
pub struct ExBytesMut(BytesMut);

/// `bytes::Bytes`, an immutable, cheaply cloned byte buffer.
#[verifier::external_type_specification]
#[verifier::external_body]
pub struct ExBytes(Bytes);

/// The bytes that a `BytesMut` holds, from index 0 to its length.
pub uninterp spec fn bytes_mut_view(b: BytesMut) -> Seq<u8>;

/// The bytes that a `Bytes` holds, from index 0 to its length.
pub uninterp spec fn bytes_view(b: Bytes) -> Seq<u8>;

/// `BytesMut::with_capacity`: the new buffer holds no bytes (the capacity
/// only decides when it reallocates, which no contract here depends on).
/// Allocating more than `isize::MAX` bytes panics, which `requires` leaves
/// out.
#[verifier::external_body]
pub fn bytes_mut_with_capacity(capacity: usize) -> (res: BytesMut)
    requires
        capacity <= isize::MAX,
    ensures
        bytes_mut_view(res) == Seq::<u8>::empty(),
{
    BytesMut::with_capacity(capacity)
}

/// `BytesMut::len`: the number of bytes held.
#[verifier::external_body]
pub fn bytes_mut_len(b: &BytesMut) -> (res: usize)
    ensures
        res == bytes_mut_view(*b).len(),
{
    b.len()
}

/// `BytesMut::clear`: drops every byte held.
#[verifier::external_body]
pub fn bytes_mut_clear(b: &mut BytesMut)
    ensures
        bytes_mut_view(*final(b)) == Seq::<u8>::empty(),
{
    b.clear()
}

/// `BytesMut::extend_from_slice`: reserves room when needed, then appends the
/// slice at the end. Reserving panics when the new length exceeds
/// `isize::MAX` (the limit of `Vec::reserve`), which `requires` leaves out.
#[verifier::external_body]
pub fn bytes_mut_extend(b: &mut BytesMut, s: &[u8])
    requires
        bytes_mut_view(*old(b)).len() + s@.len() <= isize::MAX,
    ensures
        bytes_mut_view(*final(b)) == bytes_mut_view(*old(b)) + s@,
{
    b.extend_from_slice(s)
}

/// `BytesMut::truncate`: keeps the first `len` bytes and drops the rest; a
/// `len` past the end leaves the buffer as it is.
#[verifier::external_body]
pub fn bytes_mut_truncate(b: &mut BytesMut, len: usize)
    ensures
        bytes_mut_view(*final(b)) == (if len <= bytes_mut_view(*old(b)).len() {
            bytes_mut_view(*old(b)).take(len as int)
        } else {
            bytes_mut_view(*old(b))
        }),
{
    b.truncate(len)
}

/// Overwrites the byte at index `i` (indexing through
/// `DerefMut<Target = [u8]>`), which panics past the end.
#[verifier::external_body]
pub fn bytes_mut_set(b: &mut BytesMut, i: usize, v: u8)
    requires
        i < bytes_mut_view(*old(b)).len(),
    ensures
        bytes_mut_view(*final(b)) == bytes_mut_view(*old(b)).update(i as int, v),
{
    b[i] = v;
}

/// The held bytes as a slice (`Deref<Target = [u8]>`).
#[verifier::external_body]
pub fn bytes_mut_as_slice(b: &BytesMut) -> (res: &[u8])
    ensures
        res@ == bytes_mut_view(*b),
{
    &b[..]
}

/// `BytesMut::split_to`: the result takes the first `at` bytes and `b` keeps
/// the rest. It panics when `at` is past the end.
#[verifier::external_body]
pub fn bytes_mut_split_to(b: &mut BytesMut, at: usize) -> (res: BytesMut)
    requires
        at <= bytes_mut_view(*old(b)).len(),
    ensures
        bytes_mut_view(res) == bytes_mut_view(*old(b)).take(at as int),
        bytes_mut_view(*final(b)) == bytes_mut_view(*old(b)).skip(at as int),
{
    b.split_to(at)
}

/// `BytesMut::freeze`: the same bytes, now immutable.
#[verifier::external_body]
pub fn bytes_mut_freeze(b: BytesMut) -> (res: Bytes)
    ensures
        bytes_view(res) == bytes_mut_view(b),
{
    b.freeze()
}

/// The held bytes as a slice (`Deref<Target = [u8]>`).
#[verifier::external_body]
pub fn bytes_as_slice(b: &Bytes) -> (res: &[u8])
    ensures
        res@ == bytes_view(*b),
{
    &b[..]
}

/// `Bytes::slice_from`: the bytes from index `begin` on. It panics when
/// `begin` is past the end.
#[verifier::external_body]
pub fn bytes_slice_from(b: &Bytes, begin: usize) -> (res: Bytes)
    requires
        begin <= bytes_view(*b).len(),
    ensures
        bytes_view(res) == bytes_view(*b).skip(begin as int),
{
    b.slice_from(begin)
}

/// `Bytes::from(&[u8])`: a copy of the slice.
#[verifier::external_body]
pub fn bytes_from_slice(s: &[u8]) -> (res: Bytes)
    ensures
        bytes_view(res) == s@,
{
    Bytes::from(s)
}

/// `LittleEndian::read_u16`: the first two bytes, least significant first.
/// It panics on a shorter slice.
#[verifier::external_body]
pub fn read_u16_le(buf: &[u8]) -> (res: u16)
    requires
        buf@.len() >= 2,
    ensures
        res == le_value(buf@.take(2)),
{
    LittleEndian::read_u16(buf)
}

/// `LittleEndian::read_u24`: the first three bytes, least significant
/// first. It panics on a shorter slice.
#[verifier::external_body]
pub fn read_u24_le(buf: &[u8]) -> (res: u32)
    requires
        buf@.len() >= 3,
    ensures
        res == le_value(buf@.take(3)),
{
    LittleEndian::read_u24(buf)
}

/// `LittleEndian::read_u64`: the first eight bytes, least significant
/// first. It panics on a shorter slice.
#[verifier::external_body]
pub fn read_u64_le(buf: &[u8]) -> (res: u64)
    requires
        buf@.len() >= 8,
    ensures
        res == le_value(buf@.take(8)),
{
    LittleEndian::read_u64(buf)
}

/// `BigEndian::read_u32`: the first four bytes, most significant first.
/// It panics on a shorter slice.
#[verifier::external_body]
pub fn read_u32_be(buf: &[u8]) -> (res: u32)
    requires
        buf@.len() >= 4,
    ensures
        res == be_value(buf@.take(4)),
{
    BigEndian::read_u32(buf)
}

/// `LittleEndian::write_u24` into a fresh three-byte array: the low three
/// bytes of `n`, least significant first. It panics when `n` does not fit in
/// three bytes.
#[verifier::external_body]
pub fn write_u24_le(n: u32) -> (res: [u8; 3])
    requires
        n < 0x100_0000,
    ensures
        res@ == le_bytes(n as nat, 3),
{
    let mut out = [0u8; 3];
    LittleEndian::write_u24(&mut out, n);
    out
}

} // verus!
