//! The two cryptographic hash functions the engine relies on, each behind a
//! single trusted wrapper, with its result given a name that the rest of the
//! library reasons with.

use vstd::prelude::*;

verus! {

/// The 32-byte SHA-256 digest of a byte sequence.
pub uninterp spec fn sha256_of(data: Seq<u8>) -> Seq<u8>;

/// Relies on sha2::Sha256 through Digest::digest: a pure function of its
/// input producing a 32-byte digest.
#[verifier::external_body]
pub fn sha256(data: &[u8]) -> (r: Vec<u8>)
    ensures
        r@ == sha256_of(data@),
        r@.len() == 32,
{
    let digest = <sha2::Sha256 as sha2::Digest>::digest(data);
    digest.to_vec()
}

/// The 32-byte BLAKE2b-256 digest of a byte sequence.
pub uninterp spec fn blake2b256_of(data: Seq<u8>) -> Seq<u8>;

/// Relies on blake2::Blake2b with a 32-byte output through Digest::digest:
/// a pure function of its input producing a 32-byte digest.
#[verifier::external_body]
pub fn blake2b_256(data: &[u8]) -> (r: Vec<u8>)
    ensures
        r@ == blake2b256_of(data@),
        r@.len() == 32,
{
    let digest = <blake2::Blake2b<blake2::digest::consts::U32> as blake2::Digest>::digest(data);
    digest.to_vec()
}

} // verus!
