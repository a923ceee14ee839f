use reddcore::address::{encode_address, ADDRESS_VERSION_BYTE};
use reddcore::builder::build_transaction;
use reddcore::errors::WalletError;
use reddcore::hexcodec::encode_hex;
use reddcore::tx::{serialize_tx, Transaction, TxInput, TxOutput, Utxo};

fn utxo(txid: &str, vout: u32, amount: u64) -> Utxo {
    Utxo {
        txid: txid.to_string(),
        vout,
        amount,
    }
}

fn some_address(seed: u8) -> String {
    encode_address(&[seed; 20], ADDRESS_VERSION_BYTE)
}

#[test]
fn serializer_exact_layout() {
    let txid_bytes = {
        let mut b = vec![0u8; 32];
        b[31] = 0x01;
        b
    };
    let tx = Transaction {
        version: 2,
        time: 0,
        inputs: vec![TxInput {
            prev_txid: txid_bytes,
            prev_vout: 1,
            script_sig: vec![0xab],
            sequence: 0xffffffff,
        }],
        outputs: vec![TxOutput {
            value: 1,
            script_pubkey: vec![0x6a],
        }],
    };
    let raw = serialize_tx(&tx);
    let expected = format!(
        "02000000000000000101{}0100000001abffffffff010100000000000000016a00000000",
        "00".repeat(31)
    );
    assert_eq!(encode_hex(raw.as_slice()), expected);
}

#[test]
fn build_preserves_input_order_and_fields() {
    let utxos = vec![
        utxo(&"ab".repeat(32), 7, 60_000),
        utxo(&"cd".repeat(32), 0, 40_000),
    ];
    let dest = some_address(1);
    let change = some_address(2);
    let tx = build_transaction(&utxos, Some((&dest, 50_000)), None, &change, 1_000, 99).unwrap();
    assert_eq!(tx.version, 2);
    assert_eq!(tx.time, 99);
    assert_eq!(tx.inputs.len(), 2);
    assert_eq!(tx.inputs[0].prev_txid, vec![0xab; 32]);
    assert_eq!(tx.inputs[0].prev_vout, 7);
    assert!(tx.inputs[0].script_sig.is_empty());
    assert_eq!(tx.inputs[0].sequence, 0xffffffff);
    assert_eq!(tx.inputs[1].prev_txid, vec![0xcd; 32]);
    // destination then change
    assert_eq!(tx.outputs.len(), 2);
    assert_eq!(tx.outputs[0].value, 50_000);
    assert_eq!(tx.outputs[1].value, 49_000);
}

#[test]
fn build_dust_remainder_drops_change_output() {
    let utxos = vec![utxo(&"ab".repeat(32), 0, 10_000)];
    let dest = some_address(1);
    let change = some_address(2);
    // remainder = 10_000 - 9_000 - 500 = 500, below the 546 dust limit
    let tx = build_transaction(&utxos, Some((&dest, 9_000)), None, &change, 500, 0).unwrap();
    assert_eq!(tx.outputs.len(), 1);
    assert_eq!(tx.outputs[0].value, 9_000);
}

#[test]
fn build_remainder_at_dust_limit_keeps_change_output() {
    let utxos = vec![utxo(&"ab".repeat(32), 0, 10_000)];
    let dest = some_address(1);
    let change = some_address(2);
    // remainder = 10_000 - 9_000 - 454 = 546, exactly at the limit
    let tx = build_transaction(&utxos, Some((&dest, 9_000)), None, &change, 454, 0).unwrap();
    assert_eq!(tx.outputs.len(), 2);
    assert_eq!(tx.outputs[0].value, 9_000);
    assert_eq!(tx.outputs[1].value, 546);
}

#[test]
fn build_insufficient_funds_exact_shortfall() {
    let utxos = vec![utxo(&"ab".repeat(32), 0, 10_000)];
    let dest = some_address(1);
    let change = some_address(2);
    let r = build_transaction(&utxos, Some((&dest, 10_000)), None, &change, 1, 0);
    assert!(matches!(
        r,
        Err(WalletError::InsufficientFunds {
            available: 10_000,
            required: 10_001,
        })
    ));
}

#[test]
fn build_amount_overflow_reported() {
    let utxos = vec![
        utxo(&"ab".repeat(32), 0, u64::MAX),
        utxo(&"cd".repeat(32), 0, 1),
    ];
    let dest = some_address(1);
    let change = some_address(2);
    let r = build_transaction(&utxos, Some((&dest, 1)), None, &change, 0, 0);
    assert!(matches!(r, Err(WalletError::Overflow)));
}

#[test]
fn build_requires_at_least_one_input() {
    let dest = some_address(1);
    let change = some_address(2);
    let r = build_transaction(&Vec::new(), Some((&dest, 1)), None, &change, 0, 0);
    assert!(matches!(r, Err(WalletError::NoInputs)));
}

#[test]
fn build_rejects_bad_txids() {
    let dest = some_address(1);
    let change = some_address(2);
    let short = vec![utxo("abcd", 0, 10_000)];
    assert!(matches!(
        build_transaction(&short, Some((&dest, 1_000)), None, &change, 100, 0),
        Err(WalletError::InvalidTxidLength)
    ));
    let bad = vec![utxo(&"zz".repeat(32), 0, 10_000)];
    assert!(matches!(
        build_transaction(&bad, Some((&dest, 1_000)), None, &change, 100, 0),
        Err(WalletError::InvalidHex)
    ));
}

#[test]
fn build_rejects_bad_addresses() {
    let utxos = vec![utxo(&"ab".repeat(32), 0, 10_000)];
    let change = some_address(2);
    assert!(matches!(
        build_transaction(&utxos, Some(("junk!", 1_000)), None, &change, 100, 0),
        Err(WalletError::InvalidAddress)
    ));
    let dest = some_address(1);
    assert!(matches!(
        build_transaction(&utxos, Some((&dest, 1_000)), None, "junk!", 100, 0),
        Err(WalletError::InvalidAddress)
    ));
}

#[test]
fn build_anchor_output_comes_first() {
    let utxos = vec![utxo(&"ab".repeat(32), 0, 100_000)];
    let dest = some_address(1);
    let change = some_address(2);
    let payload = vec![0x52, 0x44, 0x44, 0x01, 0x61];
    let tx = build_transaction(
        &utxos,
        Some((&dest, 50_000)),
        Some(&payload),
        &change,
        1_000,
        0,
    )
    .unwrap();
    assert_eq!(tx.outputs.len(), 3);
    assert_eq!(tx.outputs[0].value, 0);
    assert_eq!(tx.outputs[0].script_pubkey[0], 0x6a);
    assert_eq!(tx.outputs[1].value, 50_000);
    assert_eq!(tx.outputs[2].value, 49_000);
}

#[test]
fn build_rejects_oversized_anchor() {
    let utxos = vec![utxo(&"ab".repeat(32), 0, 100_000)];
    let change = some_address(2);
    let payload = vec![0u8; 81];
    assert!(matches!(
        build_transaction(&utxos, None, Some(&payload), &change, 1_000, 0),
        Err(WalletError::PayloadTooLarge)
    ));
}
