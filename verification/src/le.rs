//! Little-endian integer fields, read and written through `byteorder`.
use vstd::prelude::*;
use byteorder::{ByteOrder, LittleEndian};

verus! {

/// The value of two bytes taken as a little-endian `u16`.
pub open spec fn le_u16(b: Seq<u8>) -> u16
    recommends
        b.len() >= 2,
{
    (b[0] as u16) | ((b[1] as u16) << 8u16)
}

/// The value of four bytes taken as a little-endian `u32`.
pub open spec fn le_u32(b: Seq<u8>) -> u32
    recommends
        b.len() >= 4,
{
    (b[0] as u32) | ((b[1] as u32) << 8u32) | ((b[2] as u32) << 16u32) | ((b[3] as u32) << 24u32)
}

/// The value of eight bytes taken as a little-endian `u64`.
pub open spec fn le_u64(b: Seq<u8>) -> u64
    recommends
        b.len() >= 8,
{
    (b[0] as u64) | ((b[1] as u64) << 8u64) | ((b[2] as u64) << 16u64) | ((b[3] as u64) << 24u64)
        | ((b[4] as u64) << 32u64) | ((b[5] as u64) << 40u64) | ((b[6] as u64) << 48u64) | ((
    b[7] as u64) << 56u64)
}

/// The four bytes of `n` in little-endian order.
pub open spec fn le_bytes_u32(n: u32) -> Seq<u8> {
    seq![
        (n & 0xffu32) as u8,
        ((n >> 8u32) & 0xffu32) as u8,
        ((n >> 16u32) & 0xffu32) as u8,
        ((n >> 24u32) & 0xffu32) as u8,
    ]
}

/// Reading back the bytes of a `u32` gives the `u32`.
pub proof fn lemma_le_u32_roundtrip(n: u32)
    ensures
        le_u32(le_bytes_u32(n)) == n,
{
    let b = le_bytes_u32(n);
    let b0 = b[0];
    let b1 = b[1];
    let b2 = b[2];
    let b3 = b[3];
    assert(b0 == (n & 0xffu32) as u8);
    assert(b1 == ((n >> 8u32) & 0xffu32) as u8);
    assert(b2 == ((n >> 16u32) & 0xffu32) as u8);
    assert(b3 == ((n >> 24u32) & 0xffu32) as u8);
    assert(((b0 as u32) | ((b1 as u32) << 8u32) | ((b2 as u32) << 16u32) | ((b3 as u32) << 24u32))
        == n) by (bit_vector)
        requires
            b0 == (n & 0xffu32) as u8,
            b1 == ((n >> 8u32) & 0xffu32) as u8,
            b2 == ((n >> 16u32) & 0xffu32) as u8,
            b3 == ((n >> 24u32) & 0xffu32) as u8,
    ;
}

/// Reads a little-endian `u16` from the first two bytes of `buf`
/// (`byteorder::LittleEndian::read_u16`, which panics on fewer than two bytes).
#[verifier::external_body]
pub(crate) fn read_u16(buf: &[u8]) -> (r: u16)
    requires
        buf@.len() >= 2,
    ensures
        r == le_u16(buf@),
{
    LittleEndian::read_u16(buf)
}

/// Reads a little-endian `u32` from the first four bytes of `buf`
/// (`byteorder::LittleEndian::read_u32`, which panics on fewer than four bytes).
#[verifier::external_body]
pub(crate) fn read_u32(buf: &[u8]) -> (r: u32)
    requires
        buf@.len() >= 4,
    ensures
        r == le_u32(buf@),
{
    LittleEndian::read_u32(buf)
}

/// Reads a little-endian `u64` from the first eight bytes of `buf`
/// (`byteorder::LittleEndian::read_u64`, which panics on fewer than eight bytes).
#[verifier::external_body]
pub(crate) fn read_u64(buf: &[u8]) -> (r: u64)
    requires
        buf@.len() >= 8,
    ensures
        r == le_u64(buf@),
{
    LittleEndian::read_u64(buf)
}

/// Writes `n` in little-endian order over the first four bytes of `buf` and
/// leaves the rest alone (`byteorder::LittleEndian::write_u32`, which panics on
/// fewer than four bytes).
#[verifier::external_body]
pub(crate) fn write_u32(buf: &mut [u8], n: u32)
    requires
        old(buf)@.len() >= 4,
    ensures
        final(buf)@ == le_bytes_u32(n) + old(buf)@.skip(4),
{
    LittleEndian::write_u32(buf, n)
}

} // verus!
