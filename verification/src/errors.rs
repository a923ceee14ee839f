//! Typed errors for every fallible operation of the engine.
//!
//! Malformed caller input is an expected, recoverable condition: the engine
//! never panics on it, it returns one of these variants instead.

use vstd::prelude::*;

verus! {

/// Error classification of the wallet engine.
#[derive(Clone, Copy, Debug, PartialEq, Eq, Structural)]
pub enum WalletError {
    /// The recovery phrase does not parse against the word list or checksum.
    InvalidMnemonic,
    /// A hierarchical key derivation step failed.
    DerivationFailed,
    /// An address does not decode to 25 bytes with a verifying checksum.
    InvalidAddress,
    /// A command or identifier is empty after trimming whitespace.
    EmptyField,
    /// A command or identifier contains the separator byte 0x00.
    IllegalSeparatorByte,
    /// The anchor payload would exceed the 80-byte relay limit.
    PayloadTooLarge,
    /// The anchor payload bytes do not match the protocol layout.
    MalformedPayload,
    /// A string that must be hexadecimal is not.
    InvalidHex,
    /// A string that must be Base64 is not.
    InvalidBase64,
    /// A packed vault text is not `<ciphertext>:<nonce>` with both parts
    /// non-empty.
    MalformedVaultText,
    /// The inputs cannot cover the outputs plus the fee.
    InsufficientFunds { available: u64, required: u64 },
    /// An amount accumulation or fee computation exceeded the integer range.
    Overflow,
    /// A transaction needs at least one input.
    NoInputs,
    /// A private key is not exactly 64 hexadecimal characters.
    InvalidKeyLength,
    /// A transaction id is not exactly 64 hexadecimal characters.
    InvalidTxidLength,
    /// The elliptic-curve signing operation failed.
    SigningFailed,
    /// The authenticated cipher refused to encrypt.
    EncryptionFailed,
    /// The authentication tag did not verify on decryption.
    AuthenticationFailed,
    /// A vault nonce does not decode to exactly 12 bytes.
    InvalidNonceLength,
    /// Recovered or embedded bytes are not valid text.
    InvalidUtf8,
}

} // verus!
