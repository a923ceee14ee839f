use reddcore::address::{encode_address, ADDRESS_VERSION_BYTE};
use reddcore::errors::WalletError;
use reddcore::hexcodec::decode_hex;
use reddcore::keys::generate_mnemonic;
use reddcore::tx::Utxo;
use reddcore::wallet::{
    build_and_sign_tx, sign_multi_input_transaction, sign_opreturn_transaction,
    sign_standard_transfer, TransactionRequest,
};

const PRIVATE_KEY_HEX: &str = "0101010101010101010101010101010101010101010101010101010101010101";

fn utxo(txid: &str, vout: u32, amount: u64) -> Utxo {
    Utxo {
        txid: txid.to_string(),
        vout,
        amount,
    }
}

fn some_address(seed: u8) -> String {
    encode_address(&[seed; 20], ADDRESS_VERSION_BYTE)
}

#[test]
fn transfer_signs_deterministically() {
    let utxos = vec![utxo(&"ab".repeat(32), 0, 1_000_000)];
    let h1 = sign_standard_transfer(
        &utxos,
        PRIVATE_KEY_HEX.to_string(),
        some_address(1),
        some_address(2),
        400_000,
        1_000,
        77,
    )
    .unwrap();
    let h2 = sign_standard_transfer(
        &utxos,
        PRIVATE_KEY_HEX.to_string(),
        some_address(1),
        some_address(2),
        400_000,
        1_000,
        77,
    )
    .unwrap();
    assert_eq!(h1, h2);
    // the result is hex of a serialized transaction with filled-in scripts
    let raw = decode_hex(&h1).unwrap();
    assert_eq!(&raw[0..4], &[0x02, 0x00, 0x00, 0x00]);
    assert!(raw.len() > 150);
    // the unlocking script pushes a DER signature (0x30 ...) and a 33-byte
    // compressed public key (0x21 then 0x02 or 0x03)
    let has_der = raw.windows(2).any(|w| w[1] == 0x30 && w[0] >= 0x40);
    let has_pubkey_push = raw
        .windows(2)
        .any(|w| w[0] == 0x21 && (w[1] == 0x02 || w[1] == 0x03));
    assert!(has_der);
    assert!(has_pubkey_push);
}

#[test]
fn transfer_signature_depends_on_key() {
    let utxos = vec![utxo(&"ab".repeat(32), 0, 1_000_000)];
    let other_key = "0202020202020202020202020202020202020202020202020202020202020202";
    let h1 = sign_standard_transfer(
        &utxos,
        PRIVATE_KEY_HEX.to_string(),
        some_address(1),
        some_address(2),
        400_000,
        1_000,
        77,
    )
    .unwrap();
    let h2 = sign_standard_transfer(
        &utxos,
        other_key.to_string(),
        some_address(1),
        some_address(2),
        400_000,
        1_000,
        77,
    )
    .unwrap();
    assert_ne!(h1, h2);
}

#[test]
fn transfer_rejects_bad_keys() {
    let utxos = vec![utxo(&"ab".repeat(32), 0, 1_000_000)];
    // not 64 characters
    assert!(matches!(
        sign_standard_transfer(
            &utxos,
            "0101".to_string(),
            some_address(1),
            some_address(2),
            1_000,
            1_000,
            0,
        ),
        Err(WalletError::InvalidKeyLength)
    ));
    // 64 characters but not hex
    assert!(matches!(
        sign_standard_transfer(
            &utxos,
            "zz".repeat(32),
            some_address(1),
            some_address(2),
            1_000,
            1_000,
            0,
        ),
        Err(WalletError::InvalidHex)
    ));
    // the zero scalar is not a valid secp256k1 key
    assert!(matches!(
        sign_standard_transfer(
            &utxos,
            "00".repeat(32),
            some_address(1),
            some_address(2),
            1_000,
            1_000,
            0,
        ),
        Err(WalletError::SigningFailed)
    ));
}

#[test]
fn transfer_insufficient_funds_propagates() {
    let utxos = vec![utxo(&"ab".repeat(32), 0, 1_000)];
    assert!(matches!(
        sign_standard_transfer(
            &utxos,
            PRIVATE_KEY_HEX.to_string(),
            some_address(1),
            some_address(2),
            900,
            1_000,
            0,
        ),
        Err(WalletError::InsufficientFunds { .. })
    ));
}

#[test]
fn opreturn_transaction_signs() {
    let utxos = vec![
        utxo(&"ab".repeat(32), 0, 500_000),
        utxo(&"cd".repeat(32), 3, 500_000),
    ];
    let h = sign_opreturn_transaction(
        &utxos,
        PRIVATE_KEY_HEX.to_string(),
        "5244440153455400616c696365".to_string(),
        some_address(2),
        1_000,
        55,
    )
    .unwrap();
    let raw = decode_hex(&h).unwrap();
    // both inputs are present and signed
    assert_eq!(raw[8], 2);
    // the anchor payload bytes appear in the serialized transaction
    let payload = decode_hex("5244440153455400616c696365").unwrap();
    let found = raw
        .windows(payload.len())
        .any(|window| window == payload.as_slice());
    assert!(found);
}

#[test]
fn multi_input_alias_matches_opreturn_signing() {
    let utxos = vec![utxo(&"ab".repeat(32), 0, 500_000)];
    let a = sign_opreturn_transaction(
        &utxos,
        PRIVATE_KEY_HEX.to_string(),
        "52444401aa00bb".to_string(),
        some_address(2),
        1_000,
        55,
    )
    .unwrap();
    let b = sign_multi_input_transaction(
        &utxos,
        PRIVATE_KEY_HEX.to_string(),
        "52444401aa00bb".to_string(),
        some_address(2),
        1_000,
        55,
    )
    .unwrap();
    assert_eq!(a, b);
}

#[test]
fn empty_inputs_reported_before_key_decoding() {
    // with no inputs, a 64-character key is not even decoded: the missing
    // inputs are reported first, as the input check precedes the key parse
    let no_utxos: Vec<Utxo> = Vec::new();
    assert!(matches!(
        sign_opreturn_transaction(
            &no_utxos,
            "zz".repeat(32),
            "52444401aa00bb".to_string(),
            some_address(2),
            1_000,
            0,
        ),
        Err(WalletError::NoInputs)
    ));
    assert!(matches!(
        sign_standard_transfer(
            &no_utxos,
            "zz".repeat(32),
            some_address(1),
            some_address(2),
            1_000,
            1_000,
            0,
        ),
        Err(WalletError::NoInputs)
    ));
}

#[test]
fn opreturn_rejects_bad_payload_hex() {
    let utxos = vec![utxo(&"ab".repeat(32), 0, 500_000)];
    assert!(matches!(
        sign_opreturn_transaction(
            &utxos,
            PRIVATE_KEY_HEX.to_string(),
            "xyz".to_string(),
            some_address(2),
            1_000,
            55,
        ),
        Err(WalletError::InvalidHex)
    ));
}

#[test]
fn request_pipeline_builds_and_signs() {
    let mnemonic = generate_mnemonic();
    let request = TransactionRequest {
        mnemonic,
        destination_address: some_address(1),
        amount_sats: 250_000,
        change_address: some_address(2),
        fee_sats: 10_000,
        utxos: vec![utxo(&"ef".repeat(32), 1, 1_000_000)],
        op_return_data: Some("5244440153455400616c696365".to_string()),
    };
    let h1 = build_and_sign_tx(&request, 123_456).unwrap();
    let h2 = build_and_sign_tx(&request, 123_456).unwrap();
    assert_eq!(h1, h2);
    let raw = decode_hex(&h1).unwrap();
    assert_eq!(&raw[0..4], &[0x02, 0x00, 0x00, 0x00]);
    // the time field follows the version
    assert_eq!(&raw[4..8], 123_456u32.to_le_bytes().as_slice());
}

#[test]
fn request_pipeline_rejects_bad_mnemonic() {
    let request = TransactionRequest {
        mnemonic: "definitely not a mnemonic".to_string(),
        destination_address: some_address(1),
        amount_sats: 250_000,
        change_address: some_address(2),
        fee_sats: 10_000,
        utxos: vec![utxo(&"ef".repeat(32), 1, 1_000_000)],
        op_return_data: None,
    };
    assert!(matches!(
        build_and_sign_tx(&request, 0),
        Err(WalletError::InvalidMnemonic)
    ));
}

#[test]
fn request_pipeline_empty_anchor_is_no_anchor() {
    let mnemonic = generate_mnemonic();
    let base = TransactionRequest {
        mnemonic: mnemonic.clone(),
        destination_address: some_address(1),
        amount_sats: 250_000,
        change_address: some_address(2),
        fee_sats: 10_000,
        utxos: vec![utxo(&"ef".repeat(32), 1, 1_000_000)],
        op_return_data: Some(String::new()),
    };
    let with_empty = build_and_sign_tx(&base, 7).unwrap();
    let without = TransactionRequest {
        mnemonic,
        destination_address: some_address(1),
        amount_sats: 250_000,
        change_address: some_address(2),
        fee_sats: 10_000,
        utxos: vec![utxo(&"ef".repeat(32), 1, 1_000_000)],
        op_return_data: None,
    };
    let with_none = build_and_sign_tx(&without, 7).unwrap();
    assert_eq!(with_empty, with_none);
}
