use dharitri_mock::token_identifier::{DecodeError, MoaxOrDctTokenIdentifier, TokenIdentifier};

#[test]
fn test_token_identifier_moax() {
    let result = MoaxOrDctTokenIdentifier::moax();
    assert_eq!(MoaxOrDctTokenIdentifier::moax(), result);
}

#[test]
fn test_token_identifier_is_valid() {
    let result = MoaxOrDctTokenIdentifier::dct(TokenIdentifier::from_bytes(b"ALC-6258d2".to_vec()))
        .is_valid();
    assert!(result);
    let result = MoaxOrDctTokenIdentifier::dct(TokenIdentifier::from_bytes(b"AL-C6258d2".to_vec()))
        .is_valid();
    assert!(!result);
    let result = TokenIdentifier::from_bytes(b"12345-6258d2".to_vec()).is_valid_dct_identifier();
    assert!(result);
    let result = TokenIdentifier::from_bytes(b"ALCCCCCCCCC-6258d2".to_vec())
        .is_valid_dct_identifier();
    assert!(!result);
}

#[test]
fn test_is_valid_edge_cases() {
    // shortest ticker: 3 bytes; longest: 10 bytes
    assert!(TokenIdentifier::from_bytes(b"ABC-123456".to_vec()).is_valid_dct_identifier());
    assert!(TokenIdentifier::from_bytes(b"ABCDEFGHIJ-123456".to_vec()).is_valid_dct_identifier());
    // 2-byte ticker is too short, 11-byte too long
    assert!(!TokenIdentifier::from_bytes(b"AB-123456".to_vec()).is_valid_dct_identifier());
    // lowercase ticker byte
    assert!(!TokenIdentifier::from_bytes(b"AbC-123456".to_vec()).is_valid_dct_identifier());
    // suffix must be lowercase hex: 'G' and 'A' are not
    assert!(!TokenIdentifier::from_bytes(b"ABC-12345G".to_vec()).is_valid_dct_identifier());
    assert!(!TokenIdentifier::from_bytes(b"ABC-12345A".to_vec()).is_valid_dct_identifier());
    // suffix shorter than 6 (total length 9 < 10)
    assert!(!TokenIdentifier::from_bytes(b"ABC-12345".to_vec()).is_valid_dct_identifier());
    // missing dash at the expected position
    assert!(!TokenIdentifier::from_bytes(b"ABCX123456".to_vec()).is_valid_dct_identifier());
    // native always passes
    assert!(MoaxOrDctTokenIdentifier::moax().is_valid());
}

#[test]
fn test_parse_marker_yields_native() {
    let id = MoaxOrDctTokenIdentifier::parse(b"MOAX".to_vec());
    assert!(id.is_moax());
    assert!(!id.is_dct());
}

#[test]
fn test_parse_other_bytes_yields_token() {
    let id = MoaxOrDctTokenIdentifier::parse(b"ALC-6258d2".to_vec());
    assert!(id.is_dct());
    assert_eq!(id.unwrap_dct().into_bytes(), b"ALC-6258d2".to_vec());
}

#[test]
fn test_native_round_trip() {
    let encoded = MoaxOrDctTokenIdentifier::moax().into_name();
    assert_eq!(encoded, b"MOAX".to_vec());
    let parsed = MoaxOrDctTokenIdentifier::parse(encoded);
    assert!(parsed.is_moax());
}

#[test]
fn test_token_round_trip() {
    let id = MoaxOrDctTokenIdentifier::dct(TokenIdentifier::from_bytes(b"ALC-6258d2".to_vec()));
    let encoded = id.top_encode();
    assert_eq!(encoded, b"ALC-6258d2".to_vec());
    let parsed = MoaxOrDctTokenIdentifier::top_decode(encoded);
    assert_eq!(
        parsed,
        MoaxOrDctTokenIdentifier::dct(TokenIdentifier::from_bytes(b"ALC-6258d2".to_vec()))
    );
}

#[test]
fn test_dep_encode_writes_length_prefix() {
    let native = MoaxOrDctTokenIdentifier::moax().dep_encode();
    assert_eq!(native, b"\x00\x00\x00\x04MOAX".to_vec());
    let token = MoaxOrDctTokenIdentifier::dct(TokenIdentifier::from_bytes(b"ALC-6258d2".to_vec()))
        .dep_encode();
    assert_eq!(token, b"\x00\x00\x00\x0aALC-6258d2".to_vec());
}

#[test]
fn test_dep_decode() {
    let mut buf = b"xx".to_vec();
    buf.extend_from_slice(b"\x00\x00\x00\x04MOAX");
    buf.extend_from_slice(b"\x00\x00\x00\x0aALC-6258d2");
    let (first, next) = MoaxOrDctTokenIdentifier::dep_decode(&buf, 2).unwrap();
    assert!(first.is_moax());
    assert_eq!(next, 10);
    let (second, end) = MoaxOrDctTokenIdentifier::dep_decode(&buf, next).unwrap();
    assert_eq!(second.unwrap_dct().into_bytes(), b"ALC-6258d2".to_vec());
    assert_eq!(end, buf.len());
    // announced length runs past the end of the input
    let truncated = b"\x00\x00\x00\x05MOAX".to_vec();
    assert_eq!(
        MoaxOrDctTokenIdentifier::dep_decode(&truncated, 0).unwrap_err(),
        DecodeError::InputTooShort
    );
    assert_eq!(
        MoaxOrDctTokenIdentifier::dep_decode(&b"\x00\x00".to_vec(), 0).unwrap_err(),
        DecodeError::InputTooShort
    );
}

#[test]
fn test_dct_options() {
    let id = MoaxOrDctTokenIdentifier::dct(TokenIdentifier::from_bytes(b"ALC-6258d2".to_vec()));
    assert!(id.as_dct_option().is_some());
    assert!(id.into_dct_option().is_some());
    let native = MoaxOrDctTokenIdentifier::moax();
    assert!(native.as_dct_option().is_none());
    assert!(native.into_dct_option().is_none());
}
