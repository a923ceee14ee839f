use reddcore::errors::WalletError;
use reddcore::vault::{decrypt, encrypt, pack_vault, unpack_vault};

const KEY: [u8; 32] = [0x42; 32];

#[test]
fn vault_round_trips_text() {
    let (ct, nonce) = encrypt("the quick brown fox", &KEY).unwrap();
    let back = decrypt(&ct, &nonce, &KEY).unwrap();
    assert_eq!(back, "the quick brown fox");
}

#[test]
fn vault_round_trips_empty_and_unicode() {
    let (ct, nonce) = encrypt("", &KEY).unwrap();
    assert_eq!(decrypt(&ct, &nonce, &KEY).unwrap(), "");
    let (ct, nonce) = encrypt("naïve – ✓", &KEY).unwrap();
    assert_eq!(decrypt(&ct, &nonce, &KEY).unwrap(), "naïve – ✓");
}

#[test]
fn vault_nonces_are_fresh() {
    let (c1, n1) = encrypt("same payload", &KEY).unwrap();
    let (c2, n2) = encrypt("same payload", &KEY).unwrap();
    assert_ne!(n1, n2);
    assert_ne!(c1, c2);
}

#[test]
fn vault_wrong_key_fails_authentication() {
    let (ct, nonce) = encrypt("secret", &KEY).unwrap();
    let other = [0x43u8; 32];
    assert_eq!(
        decrypt(&ct, &nonce, &other),
        Err(WalletError::AuthenticationFailed)
    );
}

#[test]
fn vault_corrupted_ciphertext_fails_authentication() {
    let (_ct, nonce) = encrypt("secret", &KEY).unwrap();
    // a well-formed ciphertext that was never produced under this nonce
    let (other_ct, _other_nonce) = encrypt("secret", &KEY).unwrap();
    assert_eq!(
        decrypt(&other_ct, &nonce, &KEY),
        Err(WalletError::AuthenticationFailed)
    );
}

#[test]
fn vault_rejects_bad_base64() {
    let (ct, nonce) = encrypt("secret", &KEY).unwrap();
    assert_eq!(
        decrypt("not base64!!", &nonce, &KEY),
        Err(WalletError::InvalidBase64)
    );
    assert_eq!(
        decrypt(&ct, "not base64!!", &KEY),
        Err(WalletError::InvalidBase64)
    );
}

#[test]
fn vault_rejects_wrong_nonce_length() {
    let (ct, _nonce) = encrypt("secret", &KEY).unwrap();
    // "AAAA" is valid Base64 for 3 bytes, not 12
    assert_eq!(
        decrypt(&ct, "AAAA", &KEY),
        Err(WalletError::InvalidNonceLength)
    );
    // 16 bytes is wrong too
    assert_eq!(
        decrypt(&ct, "AAAAAAAAAAAAAAAAAAAAAA==", &KEY),
        Err(WalletError::InvalidNonceLength)
    );
}

#[test]
fn vault_packed_form_round_trips() {
    let (ct, nonce) = encrypt("stored secret", &KEY).unwrap();
    let packed = pack_vault(&ct, &nonce);
    assert_eq!(packed, format!("{ct}:{nonce}"));
    let (ct2, nonce2) = unpack_vault(&packed).unwrap();
    assert_eq!(ct2, ct);
    assert_eq!(nonce2, nonce);
    assert_eq!(decrypt(&ct2, &nonce2, &KEY).unwrap(), "stored secret");
}

#[test]
fn vault_unpack_rejects_malformed_text() {
    assert_eq!(
        unpack_vault("no separator"),
        Err(WalletError::MalformedVaultText)
    );
    assert_eq!(
        unpack_vault(":nonceonly"),
        Err(WalletError::MalformedVaultText)
    );
    assert_eq!(
        unpack_vault("ciphertextonly:"),
        Err(WalletError::MalformedVaultText)
    );
    assert_eq!(unpack_vault(""), Err(WalletError::MalformedVaultText));
}
