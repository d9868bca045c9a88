//! Synthetic data sources the workloads draw from.
//!
//! Random draws promise nothing beyond their range; only the digest is a
//! pure function of its input, so only it gets a name that contracts can
//! build on.

use blake2::Digest;
use vstd::prelude::*;

verus! {

/// The 64-byte BLAKE2b-512 digest of a byte string.  The digest depends on
/// the input alone, the same in every process and on every machine.
pub uninterp spec fn blake2b512_of(data: Seq<u8>) -> Seq<u8>;

/// Relies on `blake2::Blake2b512`: the BLAKE2b-512 digest of `data`,
/// 64 bytes, a function of `data` alone.
#[verifier::external_body]
pub(crate) fn blake2b512(data: &Vec<u8>) -> (r: Vec<u8>)
    ensures
        r@ == blake2b512_of(data@),
        r@.len() == 64,
{
    let mut hasher = blake2::Blake2b512::new();
    hasher.update(data.as_slice());
    hasher.finalize().to_vec()
}

/// Relies on `rand::Rng::fill`: `len` bytes from the thread's generator.
/// Nothing is promised beyond the length.
#[verifier::external_body]
pub(crate) fn random_bytes(len: usize) -> (r: Vec<u8>)
    ensures
        r@.len() == len,
{
    let mut v = vec![0u8; len];
    rand::Rng::fill(&mut rand::thread_rng(), v.as_mut_slice());
    v
}

} // verus!
