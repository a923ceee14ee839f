//! Digest primitives the wallet relies on.
//!
//! The digests themselves are computed by outside crates; each result is
//! named as a pure function of the input, which is all the contracts of the
//! callers need.

use sha2::Digest;
use vstd::prelude::*;

verus! {

/// The 32-byte SHA-256 digest of a byte sequence.
pub uninterp spec fn sha256_of(data: Seq<u8>) -> Seq<u8>;

/// The 20-byte RIPEMD-160 digest of a byte sequence.
pub uninterp spec fn ripemd160_of(data: Seq<u8>) -> Seq<u8>;

/// Relies on sha2::Sha256: the 32-byte digest is a function of the input
/// alone.
#[verifier::external_body]
pub fn sha256(data: &[u8]) -> (r: Vec<u8>)
    ensures
        r@ == sha256_of(data@),
        r@.len() == 32,
{
    sha2::Sha256::digest(data).to_vec()
}

/// Relies on ripemd::Ripemd160: the 20-byte digest is a function of the
/// input alone.
#[verifier::external_body]
pub fn ripemd160(data: &[u8]) -> (r: Vec<u8>)
    ensures
        r@ == ripemd160_of(data@),
        r@.len() == 20,
{
    ripemd::Ripemd160::digest(data).to_vec()
}

/// The digest actually signed: SHA-256 applied twice.
pub open spec fn sha256d_of(data: Seq<u8>) -> Seq<u8> {
    sha256_of(sha256_of(data))
}

/// Computes the double SHA-256 digest.
pub fn sha256d(data: &[u8]) -> (r: Vec<u8>)
    ensures
        r@ == sha256d_of(data@),
        r@.len() == 32,
{
    let first = sha256(data);
    sha256(first.as_slice())
}

} // verus!
