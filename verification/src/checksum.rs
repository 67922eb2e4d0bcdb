//! CRC32 integrity checking for build artifacts.
//!
//! The checksum itself is computed by `crc32fast`; the library names its
//! result `crc32_of` and states everything else relative to that name.

use vstd::prelude::*;

verus! {

/// The CRC32 checksum of a byte sequence, as `crc32fast::hash` computes it:
/// a function of the bytes alone.
pub uninterp spec fn crc32_of(bytes: Seq<u8>) -> u32;

/// Relies on `crc32fast::hash`: the CRC32 of the buffer, a deterministic
/// function of the buffer's bytes.
#[verifier::external_body]
fn crc32(bytes: &[u8]) -> (r: u32)
    ensures
        r == crc32_of(bytes@),
{
    crc32fast::hash(bytes)
}

/// Whether `checksum` is the CRC32 of `bin`: the client-side verification
/// of a received build artifact.
pub fn matches_checksum(checksum: u32, bin: &[u8]) -> (r: bool)
    ensures
        r == (crc32_of(bin@) == checksum),
{
    crc32(bin) == checksum
}

/// The CRC32 the server declares for an artifact it is about to send.
pub fn artifact_checksum(bin: &[u8]) -> (r: u32)
    ensures
        r == crc32_of(bin@),
{
    crc32(bin)
}

} // verus!
