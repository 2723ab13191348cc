//! Tests for the hexadecimal codec: encoding, decoding and their errors.

use hexutil::types::Le16;
use hexutil::types::RawBytes;
use hexutil::unstable::decode_hex;
use hexutil::unstable::encode_hex;
use hexutil::FromHex;
use hexutil::FromHexError;
use hexutil::ParseHex;
use hexutil::ToHex;

#[test]
fn encode_le16_scenario() {
    // 0x1234 little-endian has the byte view [0x34, 0x12].
    let mut buffer = vec![0u8; 4];
    let text = encode_hex(&[0x34, 0x12], &mut buffer);
    assert_eq!(text, "3412");
    assert_eq!(buffer, b"3412".to_vec());
}

#[test]
fn decode_le16_scenario() {
    let mut buffer = vec![0u8; 2];
    let r = decode_hex(b"3412", &mut buffer);
    assert_eq!(r, Ok(()));
    assert_eq!(buffer, vec![0x34, 0x12]);
}

#[test]
fn decode_odd_length_scenario() {
    let mut buffer = vec![0u8; 2];
    let r = decode_hex(b"341", &mut buffer);
    assert_eq!(r, Err(FromHexError::InvalidLength(3)));
}

#[test]
fn decode_invalid_character_scenario() {
    let mut buffer = vec![0u8; 2];
    let r = decode_hex(b"34g2", &mut buffer);
    assert_eq!(r, Err(FromHexError::InvalidHexCharacter(2, b'g')));
}

#[test]
fn decode_reports_first_invalid_position() {
    for k in 0..6 {
        for bad in [b'g', b'z', b'!', b' ', 0u8, 0xff] {
            let mut text = b"0a1b2c".to_vec();
            text[k] = bad;
            let mut buffer = vec![0u8; 3];
            let r = decode_hex(&text, &mut buffer);
            assert_eq!(r, Err(FromHexError::InvalidHexCharacter(k, bad)));
        }
    }
}

#[test]
fn decode_stops_at_leftmost_invalid() {
    let mut buffer = vec![0u8; 2];
    let r = decode_hex(b"3gg2", &mut buffer);
    assert_eq!(r, Err(FromHexError::InvalidHexCharacter(1, b'g')));
}

#[test]
fn encode_length_is_twice_input_length() {
    for n in 0..16 {
        let value = RawBytes((0..n as u8).collect());
        assert_eq!(value.to_hex().len(), 2 * n);
    }
}

#[test]
fn decode_rejects_every_wrong_length() {
    for n in 0..8 {
        let text: Vec<u8> = std::iter::repeat(b'0').take(n).collect();
        let r: Result<Le16, FromHexError> = Le16::from_hex(&text);
        if n == 4 {
            assert_eq!(r, Ok(Le16(0)));
        } else {
            assert_eq!(r, Err(FromHexError::InvalidLength(n)));
        }
    }
}

#[test]
fn round_trip_all_byte_values() {
    let bytes: Vec<u8> = (0..=255).collect();
    let value = RawBytes(bytes.clone());
    let hex = value.to_hex();
    assert_eq!(hex.len(), 512);
    let back = RawBytes::from_hex(hex.as_bytes());
    assert_eq!(back, Ok(RawBytes(bytes)));
}

#[test]
fn round_trip_empty() {
    let value = RawBytes(Vec::new());
    let hex = value.to_hex();
    assert_eq!(hex, "");
    assert_eq!(RawBytes::from_hex(hex.as_bytes()), Ok(RawBytes(Vec::new())));
}

#[test]
fn decode_is_case_insensitive() {
    let lower = "3412";
    let upper = lower.to_uppercase();
    let a: Result<Le16, FromHexError> = lower.parse_hex();
    let b: Result<Le16, FromHexError> = upper.as_str().parse_hex();
    let c: Result<Le16, FromHexError> = lower.parse_hex();
    assert_eq!(a, Ok(Le16(0x1234)));
    assert_eq!(a, b);
    assert_eq!(b, c);
    let mixed: Result<Le16, FromHexError> = "AbCd".parse_hex();
    let low: Result<Le16, FromHexError> = "abcd".parse_hex();
    assert_eq!(mixed, low);
    assert_eq!(low, Ok(Le16(0xcdab)));
}

#[test]
fn codec_is_deterministic() {
    let value = RawBytes(vec![0x00, 0x7f, 0x80, 0xff]);
    let first = value.to_hex();
    let second = value.to_hex();
    assert_eq!(first, second);
    let d1 = RawBytes::from_hex(first.as_bytes());
    let d2 = RawBytes::from_hex(second.as_bytes());
    assert_eq!(d1, d2);
    let e1: Result<Le16, FromHexError> = "34g2".parse_hex();
    let e2: Result<Le16, FromHexError> = "34g2".parse_hex();
    assert_eq!(e1, e2);
}

#[test]
fn parse_hex_from_str_and_bytes() {
    let from_str: Result<Le16, FromHexError> = "3412".parse_hex();
    let from_bytes: Result<Le16, FromHexError> = b"3412".as_slice().parse_hex();
    assert_eq!(from_str, Ok(Le16(0x1234)));
    assert_eq!(from_bytes, Ok(Le16(0x1234)));
}

#[test]
fn to_hex_le16() {
    assert_eq!(Le16(0x1234).to_hex(), "3412");
    assert_eq!(Le16(0x0000).to_hex(), "0000");
    assert_eq!(Le16(0xffff).to_hex(), "ffff");
    assert_eq!(Le16(0x00ab).to_hex(), "ab00");
}

#[test]
fn with_hex_str_hands_over_the_text() {
    let r = hexutil::unstable::with_hex_str(&Le16(0x1234), |s| s);
    assert_eq!(r, "3412");
}

#[test]
fn encode_empty() {
    let mut buffer = Vec::new();
    let text = encode_hex(&[], &mut buffer);
    assert_eq!(text, "");
    assert!(buffer.is_empty());
}

#[test]
fn decode_empty() {
    let mut buffer = Vec::new();
    assert_eq!(decode_hex(b"", &mut buffer), Ok(()));
    assert!(buffer.is_empty());
}

#[test]
fn raw_bytes_error_paths() {
    assert_eq!(
        RawBytes::from_hex(b"abc"),
        Err(FromHexError::InvalidLength(3))
    );
    assert_eq!(
        RawBytes::from_hex(b"zz"),
        Err(FromHexError::InvalidHexCharacter(0, b'z'))
    );
    assert_eq!(
        RawBytes::from_hex(b"00ffz0"),
        Err(FromHexError::InvalidHexCharacter(4, b'z'))
    );
}
