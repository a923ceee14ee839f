use reddcore::address::{
    build_op_return_script, build_p2pkh_script, decode_address_to_pkh, encode_address,
    hash_public_key, ADDRESS_VERSION_BYTE,
};
use reddcore::errors::WalletError;

#[test]
fn address_round_trips() {
    let hash: Vec<u8> = (0u8..20).collect();
    let address = encode_address(hash.as_slice(), ADDRESS_VERSION_BYTE);
    let decoded = decode_address_to_pkh(&address).unwrap();
    assert_eq!(decoded, hash);
}

#[test]
fn address_version_byte_prefix() {
    // the ledger's 0x3D version byte puts addresses in the R range
    let hash = [0x11u8; 20];
    let address = encode_address(&hash, ADDRESS_VERSION_BYTE);
    assert!(address.starts_with('R'), "address was {address}");
}

#[test]
fn address_is_pure() {
    let hash = [0x42u8; 20];
    let a1 = encode_address(&hash, ADDRESS_VERSION_BYTE);
    let a2 = encode_address(&hash, ADDRESS_VERSION_BYTE);
    assert_eq!(a1, a2);
}

#[test]
fn address_rejects_corrupted_checksum() {
    let hash = [0x11u8; 20];
    let address = encode_address(&hash, ADDRESS_VERSION_BYTE);
    // flip the final character to break the checksum while staying Base58
    let mut chars: Vec<char> = address.chars().collect();
    let last = *chars.last().unwrap();
    let replacement = if last == '2' { '3' } else { '2' };
    let n = chars.len();
    chars[n - 1] = replacement;
    let corrupted: String = chars.into_iter().collect();
    assert_eq!(
        decode_address_to_pkh(&corrupted),
        Err(WalletError::InvalidAddress)
    );
}

#[test]
fn address_rejects_wrong_length() {
    // "1" decodes to a single zero byte in Base58
    assert_eq!(decode_address_to_pkh("1"), Err(WalletError::InvalidAddress));
}

#[test]
fn address_rejects_non_base58_text() {
    assert_eq!(
        decode_address_to_pkh("0OIl+/"),
        Err(WalletError::InvalidAddress)
    );
    assert_eq!(decode_address_to_pkh(""), Err(WalletError::InvalidAddress));
}

#[test]
fn key_hash_is_ripemd_of_sha() {
    // RIPEMD-160(SHA-256("")) is a fixed, well-known constant
    let hash = hash_public_key(&[]);
    assert_eq!(
        reddcore::hexcodec::encode_hex(hash.as_slice()),
        "b472a266d0bd89c13706a4132ccfb16f7c3b9fcb"
    );
}

#[test]
fn p2pkh_script_layout() {
    let hash: Vec<u8> = (0u8..20).collect();
    let script = build_p2pkh_script(hash.as_slice());
    assert_eq!(script.len(), 25);
    assert_eq!(script[0], 0x76);
    assert_eq!(script[1], 0xa9);
    assert_eq!(script[2], 0x14);
    assert_eq!(&script[3..23], hash.as_slice());
    assert_eq!(script[23], 0x88);
    assert_eq!(script[24], 0xac);
}

#[test]
fn op_return_script_layout() {
    let script = build_op_return_script(&[0xde, 0xad]);
    assert_eq!(script, vec![0x6a, 0x02, 0xde, 0xad]);
    // payloads over 75 bytes take the explicit push-data form
    let long = [0x01u8; 80];
    let script = build_op_return_script(&long);
    assert_eq!(script[0], 0x6a);
    assert_eq!(script[1], 0x4c);
    assert_eq!(script[2], 80);
    assert_eq!(&script[3..], &long);
}
