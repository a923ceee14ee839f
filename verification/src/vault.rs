//! Authenticated-encryption vault for secrets at rest.
//!
//! A payload is sealed under a caller-supplied 256-bit key with a fresh
//! random 96-bit nonce per call; the 128-bit authentication tag is appended
//! to the ciphertext. The persisted textual form is
//! `<base64-ciphertext>:<base64-nonce>`.

use crate::errors::WalletError;
use crate::rng::random_bytes;
use crate::text::text_from_bytes;
use base64::Engine;
use vstd::prelude::*;
use vstd::string::{StrSliceExecFns, StringExecFns};
use vstd::utf8::{decode_utf8, encode_utf8, valid_utf8};

verus! {

/// The ciphertext (with appended tag) of a plaintext under a 32-byte key
/// and 12-byte nonce: a function of the three arguments alone.
pub uninterp spec fn seal_of(key: Seq<u8>, nonce: Seq<u8>, plaintext: Seq<u8>) -> Seq<u8>;

/// The plaintext recovered from a ciphertext under a key and nonce, `None`
/// when the authentication tag does not verify.
pub uninterp spec fn open_of(key: Seq<u8>, nonce: Seq<u8>, ciphertext: Seq<u8>) -> Option<Seq<u8>>;

/// The Base64 text of a byte sequence, standard alphabet with padding.
pub uninterp spec fn b64_of(data: Seq<u8>) -> Seq<char>;

/// The bytes a Base64 text denotes, `None` when the text is not valid
/// standard-alphabet Base64.
pub uninterp spec fn b64_decode_of(s: Seq<char>) -> Option<Seq<u8>>;

/// Relies on aes_gcm::Aes256Gcm encryption: the ciphertext is a function
/// of key, nonce and plaintext, is 16 bytes longer than the plaintext, and
/// decrypting it under the same key and nonce returns the plaintext.
/// Encryption refuses exactly the plaintexts over 2^36 bytes.
#[verifier::external_body]
fn aead_seal(key: &[u8], nonce: &[u8], plaintext: &[u8]) -> (r: Result<Vec<u8>, WalletError>)
    requires
        key@.len() == 32,
        nonce@.len() == 12,
    ensures
        match r {
            Ok(c) => c@ == seal_of(key@, nonce@, plaintext@) && c@.len() == plaintext@.len() + 16
                && open_of(key@, nonce@, c@) == Some(plaintext@),
            Err(e) => e == WalletError::EncryptionFailed && plaintext@.len() > 0x1000000000,
        },
        plaintext@.len() <= 0x1000000000 ==> r is Ok,
{
    let cipher = match aes_gcm::aead::KeyInit::new_from_slice(key) {
        Ok(c) => c,
        Err(_) => return Err(WalletError::EncryptionFailed),
    };
    let cipher: aes_gcm::Aes256Gcm = cipher;
    match aes_gcm::aead::Aead::encrypt(&cipher, aes_gcm::Nonce::from_slice(nonce), plaintext) {
        Ok(c) => Ok(c),
        Err(_) => Err(WalletError::EncryptionFailed),
    }
}

/// Relies on aes_gcm::Aes256Gcm decryption: deterministic in key, nonce
/// and ciphertext, succeeding exactly when the authentication tag
/// verifies.
#[verifier::external_body]
fn aead_open(key: &[u8], nonce: &[u8], ciphertext: &[u8]) -> (r: Result<Vec<u8>, WalletError>)
    requires
        key@.len() == 32,
        nonce@.len() == 12,
    ensures
        match r {
            Ok(p) => open_of(key@, nonce@, ciphertext@) == Some(p@),
            Err(e) => open_of(key@, nonce@, ciphertext@) is None && e
                == WalletError::AuthenticationFailed,
        },
{
    let cipher = match aes_gcm::aead::KeyInit::new_from_slice(key) {
        Ok(c) => c,
        Err(_) => return Err(WalletError::AuthenticationFailed),
    };
    let cipher: aes_gcm::Aes256Gcm = cipher;
    match aes_gcm::aead::Aead::decrypt(&cipher, aes_gcm::Nonce::from_slice(nonce), ciphertext) {
        Ok(p) => Ok(p),
        Err(_) => Err(WalletError::AuthenticationFailed),
    }
}

/// Relies on base64's standard engine: the text is a function of the bytes
/// alone, never contains `:`, and decodes back to the bytes.
#[verifier::external_body]
fn base64_encode(data: &[u8]) -> (r: String)
    ensures
        r@ == b64_of(data@),
        b64_decode_of(r@) == Some(data@),
        r@.len() > 0 <==> data@.len() > 0,
        forall|i: int| 0 <= i < r@.len() ==> r@[i] != ':',
{
    base64::engine::general_purpose::STANDARD.encode(data)
}

/// Relies on base64's standard engine: decoding accepts exactly valid
/// standard-alphabet Base64 and returns the bytes it denotes.
#[verifier::external_body]
fn base64_decode(s: &str) -> (r: Result<Vec<u8>, WalletError>)
    ensures
        match r {
            Ok(v) => b64_decode_of(s@) == Some(v@),
            Err(e) => b64_decode_of(s@) is None && e == WalletError::InvalidBase64,
        },
{
    match base64::engine::general_purpose::STANDARD.decode(s) {
        Ok(v) => Ok(v),
        Err(_) => Err(WalletError::InvalidBase64),
    }
}

/// What decryption must return for the given Base64 ciphertext, Base64
/// nonce and key: each malformed layer has its own error, and a verified
/// payload must be valid text.
pub open spec fn vault_decrypt_spec(
    ct_b64: Seq<char>,
    nonce_b64: Seq<char>,
    key: Seq<u8>,
) -> Result<Seq<char>, WalletError> {
    match b64_decode_of(ct_b64) {
        None => Err(WalletError::InvalidBase64),
        Some(ct) => match b64_decode_of(nonce_b64) {
            None => Err(WalletError::InvalidBase64),
            Some(nonce) => if nonce.len() != 12 {
                Err(WalletError::InvalidNonceLength)
            } else {
                match open_of(key, nonce, ct) {
                    None => Err(WalletError::AuthenticationFailed),
                    Some(p) => if valid_utf8(p) {
                        Ok(decode_utf8(p))
                    } else {
                        Err(WalletError::InvalidUtf8)
                    },
                }
            },
        },
    }
}

/// Encrypts a text payload under a 32-byte key with a fresh random
/// 12-byte nonce, returning Base64 ciphertext and Base64 nonce.
///
/// Success is owed for every payload of at most 2^36 bytes — in practice,
/// always. The contract records everything later decryption needs: the
/// returned texts decode to the sealed bytes (payload length plus the
/// 16-byte tag) and the nonce, and opening the sealed bytes under that
/// nonce returns the payload.
pub fn encrypt(plaintext: &str, key: &[u8; 32]) -> (r: Result<(String, String), WalletError>)
    ensures
        match r {
            Ok(pair) => exists|nonce: Seq<u8>|
                {
                    &&& #[trigger] nonce.len() == 12
                    &&& b64_decode_of(pair.1@) == Some(nonce)
                    &&& pair.0@ == b64_of(seal_of(key@, nonce, encode_utf8(plaintext@)))
                    &&& b64_decode_of(pair.0@) == Some(seal_of(key@, nonce, encode_utf8(plaintext@)))
                    &&& seal_of(key@, nonce, encode_utf8(plaintext@)).len() == encode_utf8(
                        plaintext@,
                    ).len() + 16
                    &&& open_of(key@, nonce, seal_of(key@, nonce, encode_utf8(plaintext@)))
                        == Some(encode_utf8(plaintext@))
                },
            Err(e) => e == WalletError::EncryptionFailed && encode_utf8(plaintext@).len()
                > 0x1000000000,
        },
{
    let nonce = random_bytes(12);
    let ciphertext = match aead_seal(key.as_slice(), nonce.as_slice(), plaintext.as_bytes()) {
        Ok(c) => c,
        Err(e) => {
            return Err(e);
        },
    };
    let ct_b64 = base64_encode(ciphertext.as_slice());
    let nonce_b64 = base64_encode(nonce.as_slice());
    proof {
        let n = nonce@;
        assert(n.len() == 12 && b64_decode_of(nonce_b64@) == Some(n) && ct_b64@ == b64_of(
            seal_of(key@, n, encode_utf8(plaintext@)),
        ));
    }
    Ok((ct_b64, nonce_b64))
}

/// Decrypts a Base64 ciphertext with its Base64 nonce under a 32-byte key,
/// failing exactly as `vault_decrypt_spec` says: bad Base64, a nonce that
/// is not 12 bytes, a failed authentication tag, or non-text payload.
pub fn decrypt(ciphertext_b64: &str, nonce_b64: &str, key: &[u8; 32]) -> (r: Result<
    String,
    WalletError,
>)
    ensures
        match r {
            Ok(s) => vault_decrypt_spec(ciphertext_b64@, nonce_b64@, key@) == Ok::<
                Seq<char>,
                WalletError,
            >(s@),
            Err(e) => vault_decrypt_spec(ciphertext_b64@, nonce_b64@, key@) == Err::<
                Seq<char>,
                WalletError,
            >(e),
        },
{
    broadcast use vstd::utf8::decode_utf8_encode_utf8;
    broadcast use vstd::utf8::encode_utf8_decode_utf8;

    let ciphertext = match base64_decode(ciphertext_b64) {
        Ok(v) => v,
        Err(e) => {
            return Err(e);
        },
    };
    let nonce = match base64_decode(nonce_b64) {
        Ok(v) => v,
        Err(e) => {
            return Err(e);
        },
    };
    if nonce.len() != 12 {
        return Err(WalletError::InvalidNonceLength);
    }
    let payload = match aead_open(key.as_slice(), nonce.as_slice(), ciphertext.as_slice()) {
        Ok(p) => p,
        Err(e) => {
            return Err(e);
        },
    };
    text_from_bytes(payload)
}

/// Round trip: decrypting what encryption produced, under the same key,
/// returns exactly the original plaintext.
pub proof fn lemma_vault_round_trip(
    ct_b64: Seq<char>,
    nonce_b64: Seq<char>,
    key: Seq<u8>,
    nonce: Seq<u8>,
    plaintext: Seq<char>,
)
    requires
        nonce.len() == 12,
        b64_decode_of(ct_b64) == Some(seal_of(key, nonce, encode_utf8(plaintext))),
        b64_decode_of(nonce_b64) == Some(nonce),
        open_of(key, nonce, seal_of(key, nonce, encode_utf8(plaintext))) == Some(
            encode_utf8(plaintext),
        ),
    ensures
        vault_decrypt_spec(ct_b64, nonce_b64, key) == Ok::<Seq<char>, WalletError>(plaintext),
{
    broadcast use vstd::utf8::encode_utf8_valid_utf8;
    broadcast use vstd::utf8::encode_utf8_decode_utf8;

}

/// `k` is the position of the first `:` in `s`.
pub open spec fn first_colon_at(s: Seq<char>, k: int) -> bool {
    &&& 0 <= k < s.len()
    &&& s[k] == ':'
    &&& forall|j: int| 0 <= j < k ==> s[j] != ':'
}

/// Splits a packed vault text at its first `:` into the two Base64 parts,
/// rejecting text without a separator or with an empty part.
pub open spec fn unpacked_vault(s: Seq<char>) -> Result<(Seq<char>, Seq<char>), WalletError> {
    if exists|k: int| first_colon_at(s, k) {
        let k = choose|k: int| first_colon_at(s, k);
        if k == 0 || k == s.len() - 1 {
            Err(WalletError::MalformedVaultText)
        } else {
            Ok((s.take(k), s.skip(k + 1)))
        }
    } else {
        Err(WalletError::MalformedVaultText)
    }
}

/// Packs Base64 ciphertext and nonce into the persisted form
/// `<ciphertext>:<nonce>`.
pub fn pack_vault(ciphertext_b64: &str, nonce_b64: &str) -> (r: String)
    ensures
        r@ == ciphertext_b64@ + seq![':'] + nonce_b64@,
{
    proof {
        reveal_strlit(":");
        assert(":"@ =~= seq![':']);
    }
    let mut r = String::from_str(ciphertext_b64);
    r.append(":");
    r.append(nonce_b64);
    r
}

/// Splits a packed vault text back into its ciphertext and nonce parts.
pub fn unpack_vault(packed: &str) -> (r: Result<(String, String), WalletError>)
    ensures
        match r {
            Ok(pair) => unpacked_vault(packed@) matches Ok(p) && pair.0@ == p.0 && pair.1@ == p.1,
            Err(e) => unpacked_vault(packed@) == Err::<(Seq<char>, Seq<char>), WalletError>(e),
        },
{
    let n = packed.unicode_len();
    let mut k: usize = 0;
    while k < n && packed.get_char(k) != ':'
        invariant
            k <= n,
            n == packed@.len(),
            forall|j: int| 0 <= j < k ==> packed@[j] != ':',
        decreases n - k,
    {
        k = k + 1;
    }
    if k == n {
        proof {
            assert(forall|m: int| !first_colon_at(packed@, m));
        }
        return Err(WalletError::MalformedVaultText);
    }
    proof {
        assert(first_colon_at(packed@, k as int));
        let m = choose|m: int| first_colon_at(packed@, m);
        if m < k as int {
            assert(packed@[m] != ':');
        }
        if m > k as int {
            assert(packed@[k as int] != ':');
        }
        assert(m == k as int);
    }
    if k == 0 || k == n - 1 {
        return Err(WalletError::MalformedVaultText);
    }
    let front = packed.substring_char(0, k);
    let back = packed.substring_char(k + 1, n);
    proof {
        assert(front@ =~= packed@.take(k as int));
        assert(back@ =~= packed@.skip(k as int + 1));
    }
    Ok((String::from_str(front), String::from_str(back)))
}

/// Packing then unpacking returns the two parts unchanged whenever the
/// ciphertext part is non-empty, colon-free text and the nonce part is
/// non-empty — which holds of every Base64 text this vault produces.
pub proof fn lemma_pack_round_trip(ct: Seq<char>, nonce: Seq<char>)
    requires
        ct.len() > 0,
        nonce.len() > 0,
        forall|i: int| 0 <= i < ct.len() ==> ct[i] != ':',
    ensures
        unpacked_vault(ct + seq![':'] + nonce) == Ok::<(Seq<char>, Seq<char>), WalletError>(
            (ct, nonce),
        ),
{
    let s = ct + seq![':'] + nonce;
    let k = ct.len() as int;
    assert(s[k] == ':');
    assert(forall|j: int| 0 <= j < k ==> s[j] == ct[j] && s[j] != ':');
    assert(first_colon_at(s, k));
    let m = choose|m: int| first_colon_at(s, m);
    if m < k {
        assert(s[m] != ':');
    }
    if m > k {
        assert(s[k] != ':');
    }
    assert(m == k);
    assert(s.take(k) =~= ct);
    assert(s.skip(k + 1) =~= nonce);
}

} // verus!
