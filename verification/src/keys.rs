//! Recovery phrases and hierarchical deterministic key derivation.
//!
//! The wallet derives one key pair per seed, along the fixed path
//! m/44'/4'/0'/0/0 (purpose, coin type and account hardened). Derivation is
//! deterministic: the same seed always yields bit-identical key material.

use crate::address::{address_bytes, b58_of, encode_address, hash_public_key, key_hash_of,
    ADDRESS_VERSION_BYTE};
use crate::errors::WalletError;
use crate::rng::random_bytes;
use vstd::pervasive::unreached;
use vstd::prelude::*;

verus! {

/// The phrase checks against the word list and its embedded checksum.
pub uninterp spec fn mnemonic_ok(phrase: Seq<char>) -> bool;

/// The 64-byte seed derived from a valid phrase and a passphrase: a pure
/// function of the two texts.
pub uninterp spec fn seed_of(phrase: Seq<char>, passphrase: Seq<char>) -> Seq<u8>;

/// The 12-word phrase encoding 128 bits of entropy: a pure function of the
/// entropy bytes.
pub uninterp spec fn phrase_of_entropy(entropy: Seq<u8>) -> Seq<char>;

/// The private and compressed public key derived from a seed along a path,
/// `None` when a derivation step fails.
pub uninterp spec fn hd_key_of(seed: Seq<u8>, path: Seq<u32>) -> Option<(Seq<u8>, Seq<u8>)>;

/// Relies on bip39::Mnemonic::from_entropy and its display form: 16 bytes
/// of entropy always yield a phrase, the phrase is a function of the
/// entropy alone, and it parses back as a valid mnemonic.
#[verifier::external_body]
fn mnemonic_from_entropy(entropy: &[u8]) -> (r: Result<String, WalletError>)
    ensures
        entropy@.len() == 16 ==> r is Ok,
        match r {
            Ok(phrase) => phrase@ == phrase_of_entropy(entropy@) && mnemonic_ok(phrase@),
            Err(e) => e == WalletError::InvalidMnemonic,
        },
{
    match bip39::Mnemonic::from_entropy(entropy) {
        Ok(m) => Ok(m.to_string()),
        Err(_) => Err(WalletError::InvalidMnemonic),
    }
}

/// Relies on bip39::Mnemonic::parse: it accepts exactly the phrases that
/// check against the word list and the embedded checksum.
#[verifier::external_body]
fn parse_phrase(phrase: &str) -> (r: bool)
    ensures
        r == mnemonic_ok(phrase@),
{
    bip39::Mnemonic::parse(phrase).is_ok()
}

/// Relies on bip39::Mnemonic::parse and to_seed: parsing accepts exactly
/// the phrases that check against the word list and checksum, and the
/// 64-byte seed is a function of phrase and passphrase alone.
#[verifier::external_body]
fn seed_from_phrase(phrase: &str, passphrase: &str) -> (r: Result<Vec<u8>, WalletError>)
    ensures
        match r {
            Ok(seed) => mnemonic_ok(phrase@) && seed@ == seed_of(phrase@, passphrase@)
                && seed@.len() == 64,
            Err(e) => !mnemonic_ok(phrase@) && e == WalletError::InvalidMnemonic,
        },
{
    match bip39::Mnemonic::parse(phrase) {
        Ok(m) => Ok(m.to_seed(passphrase).to_vec()),
        Err(_) => Err(WalletError::InvalidMnemonic),
    }
}

/// Relies on bip32::ExtendedPrivateKey::derive_from_path: deterministic
/// derivation of the private and compressed public key at `path` from a
/// seed; whether it fails (wrong seed length, degenerate step) depends on
/// seed and path alone.
#[verifier::external_body]
fn derive_path_key(seed: &[u8], path: &[u32]) -> (r: Result<(Vec<u8>, Vec<u8>), WalletError>)
    ensures
        match r {
            Ok(kp) => hd_key_of(seed@, path@) == Some((kp.0@, kp.1@)) && kp.0@.len() == 32
                && kp.1@.len() == 33,
            Err(e) => hd_key_of(seed@, path@) is None && e == WalletError::DerivationFailed,
        },
{
    let mut p = bip32::DerivationPath::default();
    for index in path {
        p.push(bip32::ChildNumber(*index));
    }
    let key = match bip32::XPrv::derive_from_path(seed, &p) {
        Ok(k) => k,
        Err(_) => return Err(WalletError::DerivationFailed),
    };
    let public = key.public_key().to_bytes().to_vec();
    Ok((key.to_bytes().to_vec(), public))
}

/// The fixed derivation path of this wallet: purpose 44, coin type 4 and
/// account 0 hardened, then chain 0 and index 0.
pub open spec fn wallet_derivation_path() -> Seq<u32> {
    seq![0x8000002cu32, 0x80000004u32, 0x80000000u32, 0u32, 0u32]
}

/// The key pair of the wallet: 32-byte private scalar and 33-byte
/// compressed public key.
pub struct DerivedKey {
    pub private_key: Vec<u8>,
    pub public_key: Vec<u8>,
}

/// Generates a recovery phrase from 128 bits of secure randomness.
pub fn generate_mnemonic() -> (r: String)
    ensures
        mnemonic_ok(r@),
        exists|e: Seq<u8>| e.len() == 16 && r@ == phrase_of_entropy(e),
{
    let entropy = random_bytes(16);
    match mnemonic_from_entropy(entropy.as_slice()) {
        Ok(phrase) => {
            proof {
                assert(entropy@.len() == 16 && phrase@ == phrase_of_entropy(entropy@));
            }
            phrase
        },
        Err(_) => unreached(),
    }
}

/// Validates a recovery phrase against the word list and checksum, failing
/// with `InvalidMnemonic` exactly when it does not parse.
pub fn parse_mnemonic(phrase: &str) -> (r: Result<(), WalletError>)
    ensures
        r is Ok <==> mnemonic_ok(phrase@),
        r is Err ==> r == Err::<(), WalletError>(WalletError::InvalidMnemonic),
{
    if parse_phrase(phrase) {
        Ok(())
    } else {
        Err(WalletError::InvalidMnemonic)
    }
}

/// Derives the 64-byte seed of a recovery phrase, failing with
/// `InvalidMnemonic` exactly when the phrase does not parse.
pub fn mnemonic_to_seed(phrase: &str, passphrase: &str) -> (r: Result<Vec<u8>, WalletError>)
    ensures
        match r {
            Ok(seed) => mnemonic_ok(phrase@) && seed@ == seed_of(phrase@, passphrase@)
                && seed@.len() == 64,
            Err(e) => !mnemonic_ok(phrase@) && e == WalletError::InvalidMnemonic,
        },
{
    seed_from_phrase(phrase, passphrase)
}

/// Derives the wallet key pair from a seed along the fixed path, failing
/// with `DerivationFailed` exactly when a derivation step fails.
pub fn derive_key(seed: &[u8]) -> (r: Result<DerivedKey, WalletError>)
    ensures
        match r {
            Ok(k) => hd_key_of(seed@, wallet_derivation_path()) == Some(
                (k.private_key@, k.public_key@),
            ) && k.private_key@.len() == 32 && k.public_key@.len() == 33,
            Err(e) => hd_key_of(seed@, wallet_derivation_path()) is None && e
                == WalletError::DerivationFailed,
        },
{
    let mut path: Vec<u32> = Vec::new();
    path.push(0x8000002c);
    path.push(0x80000004);
    path.push(0x80000000);
    path.push(0);
    path.push(0);
    proof {
        assert(path@ =~= wallet_derivation_path());
    }
    let kp = derive_path_key(seed, path.as_slice())?;
    Ok(DerivedKey { private_key: kp.0, public_key: kp.1 })
}

/// Determinism: one seed, one key. Any two key pairs derived from the same
/// seed along the fixed path are bit-identical.
pub proof fn lemma_derivation_deterministic(
    seed: Seq<u8>,
    k1: (Seq<u8>, Seq<u8>),
    k2: (Seq<u8>, Seq<u8>),
)
    requires
        hd_key_of(seed, wallet_derivation_path()) == Some(k1),
        hd_key_of(seed, wallet_derivation_path()) == Some(k2),
    ensures
        k1 == k2,
{
}

/// Derives the wallet address of a recovery phrase: seed, fixed path, key
/// hash of the compressed public key, Base58 with the ledger version byte.
pub fn derive_address(phrase: &str) -> (r: Result<String, WalletError>)
    ensures
        match r {
            Ok(addr) => mnemonic_ok(phrase@) && (hd_key_of(
                seed_of(phrase@, Seq::<char>::empty()),
                wallet_derivation_path(),
            ) matches Some(kp) && addr@ == b58_of(
                address_bytes(ADDRESS_VERSION_BYTE, key_hash_of(kp.1)),
            )),
            Err(e) => if !mnemonic_ok(phrase@) {
                e == WalletError::InvalidMnemonic
            } else {
                e == WalletError::DerivationFailed && hd_key_of(
                    seed_of(phrase@, Seq::<char>::empty()),
                    wallet_derivation_path(),
                ) is None
            },
        },
{
    proof {
        reveal_strlit("");
        assert(""@ =~= Seq::<char>::empty());
    }
    let seed = seed_from_phrase(phrase, "")?;
    let key = derive_key(seed.as_slice())?;
    let key_hash = hash_public_key(key.public_key.as_slice());
    Ok(encode_address(key_hash.as_slice(), ADDRESS_VERSION_BYTE))
}

} // verus!
