//! Address and locking-script codec.
//!
//! An address is the Base58 text of `version || 20-byte key hash || 4-byte
//! checksum`, where the checksum is the first four bytes of the double
//! SHA-256 of the leading 21 bytes. The ledger served here uses version
//! byte 0x3D rather than the common 0x00 default.

use crate::errors::WalletError;
use crate::hashes::{ripemd160, sha256, sha256d, ripemd160_of, sha256_of, sha256d_of};
use vstd::prelude::*;
use vstd::slice::{slice_subrange, slice_to_vec};

verus! {

/// Base58 version byte of pay-to-key-hash addresses on the target ledger.
pub const ADDRESS_VERSION_BYTE: u8 = 0x3D;

/// The Base58 text of a byte sequence.
pub uninterp spec fn b58_of(data: Seq<u8>) -> Seq<char>;

/// The bytes a Base58 text denotes, `None` when a character is outside the
/// Base58 alphabet.
pub uninterp spec fn b58_decode_of(s: Seq<char>) -> Option<Seq<u8>>;

/// Relies on bs58::encode: the Base58 text is a function of the bytes
/// alone, and bs58::decode maps that text back to the same bytes.
#[verifier::external_body]
pub fn base58_encode(data: &[u8]) -> (r: String)
    ensures
        r@ == b58_of(data@),
        b58_decode_of(r@) == Some(data@),
{
    bs58::encode(data).into_string()
}

/// Relies on bs58::decode: recovers the bytes a Base58 text denotes and
/// fails exactly on text outside the alphabet.
#[verifier::external_body]
pub fn base58_decode(s: &str) -> (r: Result<Vec<u8>, WalletError>)
    ensures
        match r {
            Ok(v) => b58_decode_of(s@) == Some(v@),
            Err(e) => b58_decode_of(s@) is None && e == WalletError::InvalidAddress,
        },
{
    match bs58::decode(s).into_vec() {
        Ok(v) => Ok(v),
        Err(_) => Err(WalletError::InvalidAddress),
    }
}

/// The 25 bytes behind an address: version, key hash, then the leading four
/// bytes of the double SHA-256 of the first 21 bytes.
pub open spec fn address_bytes(version: u8, key_hash: Seq<u8>) -> Seq<u8> {
    let payload = seq![version] + key_hash;
    payload + sha256d_of(payload).take(4)
}

/// The key hash encoded in an address text, `None` unless the text decodes
/// to exactly 25 bytes whose trailing checksum verifies.
pub open spec fn decoded_key_hash(s: Seq<char>) -> Option<Seq<u8>> {
    match b58_decode_of(s) {
        Some(b) => if b.len() == 25 && b.skip(21) == sha256d_of(b.take(21)).take(4) {
            Some(b.subrange(1, 21))
        } else {
            None
        },
        None => None,
    }
}

/// RIPEMD-160 of SHA-256 of the (compressed) public key encoding.
pub open spec fn key_hash_of(pubkey: Seq<u8>) -> Seq<u8> {
    ripemd160_of(sha256_of(pubkey))
}

/// Hashes a public key into its 20-byte key hash.
pub fn hash_public_key(pubkey: &[u8]) -> (r: Vec<u8>)
    ensures
        r@ == key_hash_of(pubkey@),
        r@.len() == 20,
{
    let inner = sha256(pubkey);
    ripemd160(inner.as_slice())
}

/// Encodes a key hash as an address under the given version byte.
///
/// The result is a pure function of `(version, key_hash)`, and decoding it
/// recovers exactly `key_hash`.
pub fn encode_address(key_hash: &[u8], version: u8) -> (r: String)
    requires
        key_hash@.len() == 20,
    ensures
        r@ == b58_of(address_bytes(version, key_hash@)),
        decoded_key_hash(r@) == Some(key_hash@),
{
    let mut payload: Vec<u8> = Vec::new();
    payload.push(version);
    let mut i: usize = 0;
    while i < key_hash.len()
        invariant
            i <= 20,
            key_hash@.len() == 20,
            payload@ == seq![version] + key_hash@.subrange(0, i as int),
        decreases 20 - i,
    {
        payload.push(key_hash[i]);
        i = i + 1;
        assert(payload@ =~= seq![version] + key_hash@.subrange(0, i as int));
    }
    assert(payload@ =~= seq![version] + key_hash@);
    let checksum = sha256d(payload.as_slice());
    let c0 = checksum[0];
    let c1 = checksum[1];
    let c2 = checksum[2];
    let c3 = checksum[3];
    payload.push(c0);
    payload.push(c1);
    payload.push(c2);
    payload.push(c3);
    proof {
        assert(payload@ =~= address_bytes(version, key_hash@));
    }
    let r = base58_encode(payload.as_slice());
    proof {
        let b = address_bytes(version, key_hash@);
        assert(b.take(21) =~= seq![version] + key_hash@);
        assert(b.skip(21) =~= sha256d_of(b.take(21)).take(4));
        assert(b.subrange(1, 21) =~= key_hash@);
    }
    r
}

/// Decodes an address back to its 20-byte key hash, failing with
/// `InvalidAddress` unless the text decodes to 25 bytes with a verifying
/// checksum.
pub fn decode_address_to_pkh(address: &str) -> (r: Result<Vec<u8>, WalletError>)
    ensures
        match r {
            Ok(h) => decoded_key_hash(address@) == Some(h@) && h@.len() == 20,
            Err(e) => decoded_key_hash(address@) is None && e == WalletError::InvalidAddress,
        },
{
    let decoded = base58_decode(address)?;
    if decoded.len() != 25 {
        return Err(WalletError::InvalidAddress);
    }
    let body = slice_subrange(decoded.as_slice(), 0, 21);
    let checksum = sha256d(body);
    if !(decoded[21] == checksum[0] && decoded[22] == checksum[1] && decoded[23] == checksum[2]
        && decoded[24] == checksum[3]) {
        proof {
            assert(body@ =~= decoded@.take(21));
            if decoded@.skip(21) == sha256d_of(decoded@.take(21)).take(4) {
                assert(decoded@.skip(21)[0] == decoded@[21]);
                assert(decoded@.skip(21)[1] == decoded@[22]);
                assert(decoded@.skip(21)[2] == decoded@[23]);
                assert(decoded@.skip(21)[3] == decoded@[24]);
            }
        }
        return Err(WalletError::InvalidAddress);
    }
    proof {
        assert(body@ =~= decoded@.take(21));
        assert(decoded@.skip(21) =~= sha256d_of(decoded@.take(21)).take(4));
    }
    let h = slice_to_vec(slice_subrange(decoded.as_slice(), 1, 21));
    assert(h@ =~= decoded@.subrange(1, 21));
    Ok(h)
}

/// Address encoding is a pure function of version byte and key hash: two
/// encodings of the same pair are the same text.
pub proof fn lemma_encode_address_pure(
    version: u8,
    key_hash: Seq<u8>,
    a1: Seq<char>,
    a2: Seq<char>,
)
    requires
        a1 == b58_of(address_bytes(version, key_hash)),
        a2 == b58_of(address_bytes(version, key_hash)),
    ensures
        a1 == a2,
{
}

/// Address integrity: a text only carries a key hash when it decodes to
/// exactly 25 bytes whose trailing four bytes are the checksum of the
/// leading 21, and the hash is those bytes between version and checksum.
pub proof fn lemma_address_integrity(s: Seq<char>)
    ensures
        decoded_key_hash(s) matches Some(h) ==> (b58_decode_of(s) matches Some(b) && b.len() == 25
            && b.skip(21) == sha256d_of(b.take(21)).take(4) && h == b.subrange(1, 21)),
        b58_decode_of(s) is None ==> decoded_key_hash(s) is None,
{
}

/// The standard five-opcode pay-to-key-hash locking script: duplicate-top,
/// hash160, push the 20-byte hash, equal-verify, check-signature.
pub open spec fn p2pkh_script(key_hash: Seq<u8>) -> Seq<u8> {
    seq![0x76u8, 0xa9u8, 0x14u8] + key_hash + seq![0x88u8, 0xacu8]
}

/// A provably unspendable script carrying one push of the anchor payload:
/// the return-and-discard opcode, a push of the payload.
pub open spec fn op_return_script(data: Seq<u8>) -> Seq<u8> {
    if data.len() <= 75 {
        seq![0x6au8, data.len() as u8] + data
    } else {
        seq![0x6au8, 0x4cu8, data.len() as u8] + data
    }
}

/// Builds the pay-to-key-hash locking script for a 20-byte key hash.
pub fn build_p2pkh_script(pubkey_hash: &[u8]) -> (r: Vec<u8>)
    requires
        pubkey_hash@.len() == 20,
    ensures
        r@ == p2pkh_script(pubkey_hash@),
        r@.len() == 25,
{
    let mut script: Vec<u8> = Vec::new();
    script.push(0x76);
    script.push(0xa9);
    script.push(0x14);
    let mut i: usize = 0;
    while i < pubkey_hash.len()
        invariant
            i <= 20,
            pubkey_hash@.len() == 20,
            script@ == seq![0x76u8, 0xa9u8, 0x14u8] + pubkey_hash@.subrange(0, i as int),
        decreases 20 - i,
    {
        script.push(pubkey_hash[i]);
        i = i + 1;
        assert(script@ =~= seq![0x76u8, 0xa9u8, 0x14u8] + pubkey_hash@.subrange(0, i as int));
    }
    script.push(0x88);
    script.push(0xac);
    proof {
        assert(script@ =~= p2pkh_script(pubkey_hash@));
    }
    script
}

/// Builds the unspendable data-carrier script around an anchor payload of at
/// most 80 bytes.
pub fn build_op_return_script(data: &[u8]) -> (r: Vec<u8>)
    requires
        data@.len() <= 80,
    ensures
        r@ == op_return_script(data@),
{
    let mut script: Vec<u8> = Vec::new();
    script.push(0x6a);
    if data.len() <= 75 {
        script.push(data.len() as u8);
    } else {
        script.push(0x4c);
        script.push(data.len() as u8);
    }
    let ghost header = script@;
    let mut i: usize = 0;
    while i < data.len()
        invariant
            i <= data@.len(),
            script@ == header + data@.subrange(0, i as int),
        decreases data@.len() - i,
    {
        script.push(data[i]);
        i = i + 1;
        assert(script@ =~= header + data@.subrange(0, i as int));
    }
    proof {
        assert(script@ =~= op_return_script(data@));
    }
    script
}

} // verus!
