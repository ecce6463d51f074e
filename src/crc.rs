use vstd::prelude::*;

verus! {

/// The CRC-32 (IEEE polynomial) of a byte sequence.
pub uninterp spec fn crc32_ieee(b: Seq<u8>) -> u32;

/// Relies on crc's `crc32::checksum_ieee`: the CRC-32 of the bytes, which
/// depends on the bytes alone.
#[verifier::external_body]
pub(crate) fn checksum_ieee(b: &[u8]) -> (r: u32)
    ensures
        r == crc32_ieee(b@),
{
    crc::crc32::checksum_ieee(b)
}

} // verus!
