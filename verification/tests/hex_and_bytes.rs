use reddcore::bytes::ByteWriter;
use reddcore::errors::WalletError;
use reddcore::hexcodec::{decode_hex, encode_hex};

#[test]
fn hex_encodes_lowercase() {
    assert_eq!(encode_hex(&[0x00, 0xff, 0x10, 0xab]), "00ff10ab");
    assert_eq!(encode_hex(&[]), "");
}

#[test]
fn hex_decodes_both_cases() {
    assert_eq!(decode_hex("00ff10ab").unwrap(), vec![0x00, 0xff, 0x10, 0xab]);
    assert_eq!(decode_hex("00FF10AB").unwrap(), vec![0x00, 0xff, 0x10, 0xab]);
}

#[test]
fn hex_round_trips() {
    let data: Vec<u8> = (0u16..=255).map(|b| b as u8).collect();
    let text = encode_hex(data.as_slice());
    assert_eq!(decode_hex(&text).unwrap(), data);
}

#[test]
fn hex_rejects_odd_length() {
    assert_eq!(decode_hex("abc"), Err(WalletError::InvalidHex));
}

#[test]
fn hex_rejects_non_hex_characters() {
    assert_eq!(decode_hex("zz"), Err(WalletError::InvalidHex));
    assert_eq!(decode_hex("0g"), Err(WalletError::InvalidHex));
}

#[test]
fn writer_little_endian_u32() {
    let mut w = ByteWriter::new();
    w.write_u32_le(2);
    w.write_u32_le(0xdeadbeef);
    assert_eq!(w.buffer, vec![0x02, 0x00, 0x00, 0x00, 0xef, 0xbe, 0xad, 0xde]);
}

#[test]
fn writer_little_endian_u64() {
    let mut w = ByteWriter::new();
    w.write_u64_le(1);
    assert_eq!(w.buffer, vec![0x01, 0, 0, 0, 0, 0, 0, 0]);
}

#[test]
fn writer_var_int_boundaries() {
    let cases: Vec<(u64, Vec<u8>)> = vec![
        (0x00, vec![0x00]),
        (0xfc, vec![0xfc]),
        (0xfd, vec![0xfd, 0xfd, 0x00]),
        (0xffff, vec![0xfd, 0xff, 0xff]),
        (0x10000, vec![0xfe, 0x00, 0x00, 0x01, 0x00]),
        (0xffffffff, vec![0xfe, 0xff, 0xff, 0xff, 0xff]),
        (
            0x100000000,
            vec![0xff, 0x00, 0x00, 0x00, 0x00, 0x01, 0x00, 0x00, 0x00],
        ),
        (
            u64::MAX,
            vec![0xff, 0xff, 0xff, 0xff, 0xff, 0xff, 0xff, 0xff, 0xff],
        ),
    ];
    for (value, expected) in cases {
        let mut w = ByteWriter::new();
        w.write_var_int(value);
        assert_eq!(w.buffer, expected, "varint of {value}");
    }
}

#[test]
fn writer_slice_appends_in_order() {
    let mut w = ByteWriter::new();
    w.write_slice(&[1, 2]);
    w.write_slice(&[]);
    w.write_slice(&[3]);
    assert_eq!(w.buffer, vec![1, 2, 3]);
}
