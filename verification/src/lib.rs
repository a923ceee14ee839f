//! Cryptographic engine of a Reddcoin-family wallet.
//!
//! The crate derives hierarchical deterministic keys from a recovery phrase,
//! encodes addresses and locking scripts, assembles and signs legacy
//! pay-to-key-hash transactions carrying an optional identity-anchor payload,
//! and offers an authenticated-encryption vault for secrets at rest.
//!
//! Every operation is synchronous and free of shared state: each call takes
//! its key material and data as arguments and returns a value or a typed
//! error. Randomness (mnemonic entropy, vault nonces) is drawn only in
//! `rng`.

pub mod address;
pub mod builder;
pub mod bytes;
pub mod errors;
pub mod fee;
pub mod hashes;
pub mod hexcodec;
pub mod keys;
pub mod opreturn;
pub mod rng;
pub mod signer;
pub mod text;
pub mod tx;
pub mod vault;
pub mod wallet;
