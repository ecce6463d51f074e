use vstd::prelude::*;
use byteorder::{ByteOrder, LittleEndian};

verus! {

/// The unsigned integer stored little-endian in the first two bytes of `b`.
pub open spec fn le_u16(b: Seq<u8>) -> int {
    b[0] + 256 * b[1]
}

/// The unsigned integer stored little-endian in the first four bytes of `b`.
pub open spec fn le_u32(b: Seq<u8>) -> int {
    b[0] + 256 * b[1] + 65536 * b[2] + 16777216 * b[3]
}

/// Relies on byteorder's `LittleEndian::read_u16`: the first two bytes,
/// least significant first.
#[verifier::external_body]
pub(crate) fn read_le_u16(b: &[u8]) -> (r: u16)
    requires
        b@.len() >= 2,
    ensures
        r as int == le_u16(b@),
{
    LittleEndian::read_u16(b)
}

/// Relies on byteorder's `LittleEndian::read_u32`: the first four bytes,
/// least significant first.
#[verifier::external_body]
pub(crate) fn read_le_u32(b: &[u8]) -> (r: u32)
    requires
        b@.len() >= 4,
    ensures
        r as int == le_u32(b@),
{
    LittleEndian::read_u32(b)
}

} // verus!
