//! Little-endian integers as they stand in the header of an XYZ file.

use byteorder::{ByteOrder, LittleEndian};
use vstd::prelude::*;

verus! {

/// The 16-bit value whose little-endian encoding starts `bytes`.
pub open spec fn u16_from_le(bytes: Seq<u8>) -> u16
    recommends
        bytes.len() >= 2,
{
    (bytes[0] as int + 0x100 * bytes[1] as int) as u16
}

/// The 32-bit value whose little-endian encoding starts `bytes`.
pub open spec fn u32_from_le(bytes: Seq<u8>) -> u32
    recommends
        bytes.len() >= 4,
{
    (bytes[0] as int + 0x100 * bytes[1] as int + 0x1_0000 * bytes[2] as int + 0x100_0000
        * bytes[3] as int) as u32
}

/// The two bytes of `n`, least significant first.
pub open spec fn u16_to_le(n: u16) -> Seq<u8> {
    seq![(n % 0x100) as u8, (n / 0x100) as u8]
}

/// The four bytes of `n`, least significant first.
pub open spec fn u32_to_le(n: u32) -> Seq<u8> {
    seq![
        (n % 0x100) as u8,
        (n / 0x100 % 0x100) as u8,
        (n / 0x1_0000 % 0x100) as u8,
        (n / 0x100_0000) as u8,
    ]
}

/// Reading back what was written gives the number that was written.
pub proof fn lemma_u16_le_round_trip(n: u16)
    ensures
        u16_to_le(n).len() == 2,
        u16_from_le(u16_to_le(n)) == n,
{
}

/// Reading back what was written gives the number that was written.
pub proof fn lemma_u32_le_round_trip(n: u32)
    ensures
        u32_to_le(n).len() == 4,
        u32_from_le(u32_to_le(n)) == n,
{
}

/// Calls `byteorder::LittleEndian::read_u16`, which decodes the first two
/// bytes of `buf` as a little-endian integer and panics on a shorter slice.
#[verifier::external_body]
pub(crate) fn read_u16_le(buf: &[u8]) -> (n: u16)
    requires
        buf@.len() >= 2,
    ensures
        n == u16_from_le(buf@),
{
    LittleEndian::read_u16(buf)
}

/// Calls `byteorder::LittleEndian::read_u32`, which decodes the first four
/// bytes of `buf` as a little-endian integer and panics on a shorter slice.
#[verifier::external_body]
pub(crate) fn read_u32_le(buf: &[u8]) -> (n: u32)
    requires
        buf@.len() >= 4,
    ensures
        n == u32_from_le(buf@),
{
    LittleEndian::read_u32(buf)
}

/// Calls `byteorder::LittleEndian::write_u16` on a two-byte buffer, which it
/// fills with the little-endian encoding of `n`.
#[verifier::external_body]
pub(crate) fn write_u16_le(n: u16) -> (bytes: [u8; 2])
    ensures
        bytes@ == u16_to_le(n),
{
    let mut buf = [0u8; 2];
    LittleEndian::write_u16(&mut buf, n);
    buf
}

/// Calls `byteorder::LittleEndian::write_u32` on a four-byte buffer, which it
/// fills with the little-endian encoding of `n`.
#[verifier::external_body]
pub(crate) fn write_u32_le(n: u32) -> (bytes: [u8; 4])
    ensures
        bytes@ == u32_to_le(n),
{
    let mut buf = [0u8; 4];
    LittleEndian::write_u32(&mut buf, n);
    buf
}

} // verus!
