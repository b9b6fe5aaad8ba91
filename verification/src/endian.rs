//! Little-endian encoding of the 32-bit registers.

use byteorder::{ByteOrder, LittleEndian};
use vstd::prelude::*;

verus! {

/// The four bytes of `v`, least significant first.
pub open spec fn le_bytes(v: u32) -> Seq<u8> {
    seq![
        (v % 0x100) as u8,
        (v / 0x100 % 0x100) as u8,
        (v / 0x1_0000 % 0x100) as u8,
        (v / 0x100_0000) as u8,
    ]
}

/// The number whose little-endian encoding starts `bytes`.
pub open spec fn le_value(bytes: Seq<u8>) -> u32
    recommends
        bytes.len() >= 4,
{
    (bytes[0] + bytes[1] * 0x100 + bytes[2] * 0x1_0000 + bytes[3] * 0x100_0000) as u32
}

/// Decoding the encoding of a number gives the number back.
pub proof fn lemma_le_value_of_bytes(v: u32)
    ensures
        le_bytes(v).len() == 4,
        le_value(le_bytes(v)) == v,
{
}

/// Encoding the number decoded from four bytes gives the four bytes back.
pub proof fn lemma_le_bytes_of_value(bytes: Seq<u8>)
    requires
        bytes.len() == 4,
    ensures
        le_bytes(le_value(bytes)) == bytes,
{
    assert(le_bytes(le_value(bytes)) =~= bytes);
}

/// Calls `byteorder::LittleEndian::read_u32`, which decodes the first four
/// bytes of `buf` as a little-endian number and panics on a shorter buffer.
#[verifier::external_body]
pub(crate) fn read_le_u32(buf: &[u8]) -> (v: u32)
    requires
        buf@.len() >= 4,
    ensures
        v == le_value(buf@),
{
    LittleEndian::read_u32(buf)
}

/// Calls `byteorder::LittleEndian::write_u32`, which overwrites the first four
/// bytes of `buf` with the little-endian encoding of `v`, leaves the rest as
/// it was, and panics on a shorter buffer.
#[verifier::external_body]
pub(crate) fn write_le_u32(buf: &mut [u8], v: u32)
    requires
        old(buf)@.len() >= 4,
    ensures
        final(buf)@ == le_bytes(v) + old(buf)@.skip(4),
{
    LittleEndian::write_u32(buf, v)
}

} // verus!
