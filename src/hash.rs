//! Non-cryptographic content hashing.

use vstd::prelude::*;

verus! {

/// The 64-bit XXH3 hash of a byte sequence.
pub uninterp spec fn xxh3_of(b: Seq<u8>) -> u64;

/// Relies on `xxhash_rust::xxh3::xxh3_64`: the hash depends on the bytes alone.
#[verifier::external_body]
pub fn compute_hash(data: &[u8]) -> (r: u64)
    ensures
        r == xxh3_of(data@),
{
    xxhash_rust::xxh3::xxh3_64(data)
}

} // verus!
