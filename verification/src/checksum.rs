//! The archive checksum: a 32-bit CRC over the compressed archive bytes,
//! compared against the descriptor's declared value.
use vstd::prelude::*;

verus! {

/// The CRC-32 checksum of a byte sequence. Its value is fixed by the
/// checksum algorithm; this library never states what it is on given
/// bytes, only that it depends on the bytes alone.
pub uninterp spec fn crc32_of(b: Seq<u8>) -> u32;

/// Relies on `flate2::Crc` (a CRC-32 over exactly the bytes fed to it,
/// backed by `crc32fast`): the sum is a function of the bytes alone.
#[verifier::external_body]
fn crc32_exec(data: &[u8]) -> (r: u32)
    ensures
        r == crc32_of(data@),
{
    let mut crc = flate2::Crc::new();
    crc.update(data);
    crc.sum()
}

/// The checksum the verifier derives from a downloaded archive stream.
pub fn archive_checksum(data: &[u8]) -> (r: u32)
    ensures
        r == crc32_of(data@),
{
    crc32_exec(data)
}

/// Whether downloaded bytes carry the declared checksum.
pub fn checksum_matches(data: &[u8], declared: u32) -> (b: bool)
    ensures
        b == (crc32_of(data@) == declared),
{
    archive_checksum(data) == declared
}

/// The checksum is deterministic: identical bytes always carry identical
/// checksums, across any two computations.
pub proof fn lemma_checksum_deterministic(a: Seq<u8>, b: Seq<u8>)
    requires
        a == b,
    ensures
        crc32_of(a) == crc32_of(b),
{
}

} // verus!
