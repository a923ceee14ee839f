//! The engine's only source of randomness: mnemonic entropy and vault
//! nonces are drawn here.

use rand::Rng;
use vstd::prelude::*;

verus! {

/// Relies on rand::thread_rng: fills the buffer from a cryptographically
/// secure generator. Nothing is promised of the values, only the length.
#[verifier::external_body]
pub fn random_bytes(len: usize) -> (r: Vec<u8>)
    ensures
        r@.len() == len,
{
    let mut buf = vec![0u8; len];
    rand::thread_rng().fill(buf.as_mut_slice());
    buf
}

} // verus!
