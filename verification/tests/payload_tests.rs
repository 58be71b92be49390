use machine::payload::{
    decode_payload, is_inline_payload, PayloadError, MAX_DECOMPRESSED_SIZE, PREFIX_LENGTH,
};

#[test]
fn payload_decodes_after_the_prefix() {
    assert_eq!(decode_payload(b"0x48656c6c6f"), Ok(b"Hello".to_vec()));
    assert_eq!(decode_payload(b"0x0061736D"), Ok(vec![0x00, 0x61, 0x73, 0x6d]));
    assert_eq!(decode_payload(b"0xfFaA09"), Ok(vec![0xff, 0xaa, 0x09]));
    assert_eq!(decode_payload(b"0x"), Ok(Vec::new()));
}

#[test]
fn prefix_is_stripped_unread() {
    assert_eq!(decode_payload(b"zz10"), Ok(vec![0x10]));
    assert_eq!(decode_payload(b"1x10"), Ok(vec![0x10]));
}

#[test]
fn broken_payloads_are_refused() {
    assert_eq!(decode_payload(b""), Err(PayloadError::MissingPrefix));
    assert_eq!(decode_payload(b"0"), Err(PayloadError::MissingPrefix));
    assert_eq!(decode_payload(b"0x1"), Err(PayloadError::OddLength));
    assert_eq!(decode_payload(b"0x123"), Err(PayloadError::OddLength));
    assert_eq!(decode_payload(b"0xg0"), Err(PayloadError::InvalidHexCharacter));
    assert_eq!(decode_payload(b"0x0g"), Err(PayloadError::InvalidHexCharacter));
    assert_eq!(decode_payload(b"0x 1"), Err(PayloadError::InvalidHexCharacter));
    assert_eq!(decode_payload(b"0xzzz"), Err(PayloadError::OddLength));
}

#[test]
fn inline_payloads_start_with_0x() {
    assert!(is_inline_payload(b"0x"));
    assert!(is_inline_payload(b"0x00"));
    assert!(!is_inline_payload(b"0X00"));
    assert!(!is_inline_payload(b"0"));
    assert!(!is_inline_payload(b""));
    assert!(!is_inline_payload(b"bot.json"));
    assert_eq!(PREFIX_LENGTH, 2);
    assert_eq!(MAX_DECOMPRESSED_SIZE, 1_000_000);
}
