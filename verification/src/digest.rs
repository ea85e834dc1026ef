//! Digest computation over a closed choice of algorithms.

use fastcrypto::hash::{Blake2b256, HashFunction, Sha256};
use vstd::prelude::*;

verus! {

/// The number of bytes in every digest this crate computes.
pub const DIGEST_LENGTH: usize = 32;

/// The digest algorithms on offer.
#[derive(Clone, Copy, Debug, PartialEq, Eq, Structural)]
pub enum HashType {
    Sha256,
    Blake2b256,
}

/// The SHA-256 digest of `data`, as `fastcrypto` computes it.
pub uninterp spec fn sha256(data: Seq<u8>) -> Seq<u8>;

/// The BLAKE2b digest of `data` with a 256-bit output, as `fastcrypto`
/// computes it.
pub uninterp spec fn blake2b256(data: Seq<u8>) -> Seq<u8>;

/// The digest of `data` under the chosen algorithm.
pub open spec fn digest_of(data: Seq<u8>, algorithm: HashType) -> Seq<u8> {
    match algorithm {
        HashType::Sha256 => sha256(data),
        HashType::Blake2b256 => blake2b256(data),
    }
}

/// Trusted: `fastcrypto::hash::Sha256::digest` followed by `Digest::to_vec`.
/// The digest depends on the data alone, and its length is the constant
/// parameter of `Digest<32>`.
#[verifier::external_body]
fn sha256_digest(data: &[u8]) -> (out: Vec<u8>)
    ensures
        out@ == sha256(data@),
        out@.len() == DIGEST_LENGTH,
{
    Sha256::digest(data).to_vec()
}

/// Trusted: `fastcrypto::hash::Blake2b256::digest` followed by
/// `Digest::to_vec`. The digest depends on the data alone, and its length is
/// the constant parameter of `Digest<32>`.
#[verifier::external_body]
fn blake2b256_digest(data: &[u8]) -> (out: Vec<u8>)
    ensures
        out@ == blake2b256(data@),
        out@.len() == DIGEST_LENGTH,
{
    Blake2b256::digest(data).to_vec()
}

/// Computes the digest of `data` under `algorithm`.
///
/// Total: every byte sequence, the empty one included, has a digest, and the
/// digest is always `DIGEST_LENGTH` bytes long.
pub fn hash(data: Vec<u8>, algorithm: HashType) -> (out: Vec<u8>)
    ensures
        out@ == digest_of(data@, algorithm),
        out@.len() == DIGEST_LENGTH,
{
    match algorithm {
        HashType::Sha256 => sha256_digest(data.as_slice()),
        HashType::Blake2b256 => blake2b256_digest(data.as_slice()),
    }
}

/// Hashing is a function of its inputs: equal data under the same algorithm
/// has equal digests, whenever and wherever they are computed.
pub proof fn lemma_hash_deterministic(
    first: Seq<u8>,
    second: Seq<u8>,
    algorithm: HashType,
)
    requires
        first == second,
    ensures
        digest_of(first, algorithm) == digest_of(second, algorithm),
{
}

} // verus!
