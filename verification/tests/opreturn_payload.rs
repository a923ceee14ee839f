use reddcore::errors::WalletError;
use reddcore::opreturn::{build_opreturn_payload, decode_opreturn_payload};

#[test]
fn anchor_example_set_alice() {
    let hex = build_opreturn_payload("SET".to_string(), "alice".to_string()).unwrap();
    assert_eq!(hex, "5244440153455400616c696365");
}

#[test]
fn anchor_example_decodes_back() {
    let (command, identifier) = decode_opreturn_payload("5244440153455400616c696365").unwrap();
    assert_eq!(command, "SET");
    assert_eq!(identifier, "alice");
}

#[test]
fn anchor_round_trip_with_trimming() {
    let hex = build_opreturn_payload("  SET \n".to_string(), "\talice ".to_string()).unwrap();
    assert_eq!(hex, "5244440153455400616c696365");
}

#[test]
fn anchor_trims_unicode_whitespace() {
    // no-break space and em space count as whitespace, as std's trim has it
    let hex = build_opreturn_payload(
        "\u{a0}SET\u{2003}".to_string(),
        "\u{3000}alice\u{202f}".to_string(),
    )
    .unwrap();
    assert_eq!(hex, "5244440153455400616c696365");
}

#[test]
fn anchor_empty_command_rejected() {
    let r = build_opreturn_payload("   ".to_string(), "alice".to_string());
    assert_eq!(r, Err(WalletError::EmptyField));
}

#[test]
fn anchor_empty_identifier_rejected() {
    let r = build_opreturn_payload("SET".to_string(), " ".to_string());
    assert_eq!(r, Err(WalletError::EmptyField));
}

#[test]
fn anchor_separator_byte_rejected() {
    let r = build_opreturn_payload("SE\u{0}T".to_string(), "alice".to_string());
    assert_eq!(r, Err(WalletError::IllegalSeparatorByte));
    let r = build_opreturn_payload("SET".to_string(), "ali\u{0}ce".to_string());
    assert_eq!(r, Err(WalletError::IllegalSeparatorByte));
}

#[test]
fn anchor_eighty_bytes_is_accepted() {
    // 4 (prefix) + 1 (command) + 1 (separator) + 74 (identifier) == 80
    let identifier = "a".repeat(74);
    let r = build_opreturn_payload("x".to_string(), identifier).unwrap();
    assert_eq!(r.len(), 160);
}

#[test]
fn anchor_eighty_one_bytes_is_too_large() {
    let identifier = "a".repeat(75);
    let r = build_opreturn_payload("x".to_string(), identifier);
    assert_eq!(r, Err(WalletError::PayloadTooLarge));
}

#[test]
fn anchor_decode_rejects_bad_prefix() {
    // prefix RDE instead of RDD
    let r = decode_opreturn_payload("5244450153455400616c696365");
    assert_eq!(r, Err(WalletError::MalformedPayload));
}

#[test]
fn anchor_decode_rejects_missing_separator() {
    let r = decode_opreturn_payload("52444401534554616c696365");
    assert_eq!(r, Err(WalletError::MalformedPayload));
}

#[test]
fn anchor_decode_rejects_two_separators() {
    let r = decode_opreturn_payload("524444015345540061006365");
    assert_eq!(r, Err(WalletError::MalformedPayload));
}

#[test]
fn anchor_decode_rejects_empty_fields() {
    // empty command
    assert_eq!(
        decode_opreturn_payload("5244440100616c696365"),
        Err(WalletError::EmptyField)
    );
    // empty identifier
    assert_eq!(
        decode_opreturn_payload("52444401534554"),
        Err(WalletError::MalformedPayload)
    );
    assert_eq!(
        decode_opreturn_payload("5244440153455400"),
        Err(WalletError::EmptyField)
    );
}

#[test]
fn anchor_decode_rejects_bad_hex() {
    assert_eq!(
        decode_opreturn_payload("5244440153455400616c69636"),
        Err(WalletError::InvalidHex)
    );
    assert_eq!(
        decode_opreturn_payload("zz44440153455400616c696365"),
        Err(WalletError::InvalidHex)
    );
}

#[test]
fn anchor_decode_rejects_invalid_text() {
    // command bytes [0xff] are not valid UTF-8
    let r = decode_opreturn_payload("52444401ff0061");
    assert_eq!(r, Err(WalletError::InvalidUtf8));
}
