//! Tests for the dual-mode serialization layer: mode dispatch, the two
//! wire forms, the visitors and the error mapping.

use hexutil::types::Le16;
use hexutil::types::RawBytes;
use hexutil::unstable::serde::deserialize;
use hexutil::unstable::serde::serialize;
use hexutil::unstable::serde::serialize_bytes;
use hexutil::unstable::serde::BinaryVisitor;
use hexutil::unstable::serde::DeserializeRequest;
use hexutil::unstable::serde::HexVisitor;
use hexutil::unstable::serde::Metadata;
use hexutil::unstable::serde::SerdeError;
use hexutil::unstable::serde::SerializeOutput;
use hexutil::unstable::serde::Unexpected;
use hexutil::FromHexError;

#[test]
fn serialize_human_readable_is_hex_text() {
    let out = serialize(true, &Le16(0x1234));
    assert_eq!(out, SerializeOutput::Text("3412".to_string()));
}

#[test]
fn serialize_binary_is_named_tuple_record() {
    let out = serialize(false, &Le16(0x1234));
    assert_eq!(
        out,
        SerializeOutput::TupleRecord { name: "Le16".to_string(), fields: vec![0x34, 0x12] }
    );
}

#[test]
fn serialize_bytes_keeps_order() {
    let out = serialize_bytes("Le16", &[1, 2, 3]);
    assert_eq!(
        out,
        SerializeOutput::TupleRecord { name: "Le16".to_string(), fields: vec![1, 2, 3] }
    );
}

#[test]
fn deserialize_dispatches_on_mode() {
    assert_eq!(deserialize::<Le16>(true), Ok(DeserializeRequest::Text));
    assert_eq!(deserialize::<Le16>(false), Ok(DeserializeRequest::TupleRecord { len: 2 }));
}

#[test]
fn deserialize_binary_needs_a_known_length() {
    assert_eq!(deserialize::<RawBytes>(true), Ok(DeserializeRequest::Text));
    assert_eq!(
        deserialize::<RawBytes>(false),
        Err(SerdeError::LengthUnknown("RawBytes".to_string()))
    );
}

#[test]
fn visit_str_round_trip() {
    let r = HexVisitor::<Le16>::new().visit_str("3412");
    assert_eq!(r, Ok(Le16(0x1234)));
}

#[test]
fn visit_str_invalid_character() {
    let r = HexVisitor::<Le16>::new().visit_str("34g2");
    assert_eq!(r, Err(SerdeError::InvalidValue(Unexpected::Char('g'))));
}

#[test]
fn visit_str_invalid_length() {
    let r = HexVisitor::<Le16>::new().visit_str("341");
    assert_eq!(r, Err(SerdeError::InvalidLength(3)));
}

#[test]
fn visit_seq_round_trip() {
    let r = BinaryVisitor::<Le16>::new().visit_seq(Some(2), vec![0x34, 0x12], false);
    assert_eq!(r, Ok(Le16(0x1234)));
}

#[test]
fn visit_seq_missing_field() {
    let r = BinaryVisitor::<Le16>::new().visit_seq(Some(2), vec![0x34], false);
    assert_eq!(r, Err(SerdeError::InvalidLength(1)));
}

#[test]
fn visit_seq_extra_trailing_field() {
    let r = BinaryVisitor::<Le16>::new().visit_seq(Some(2), vec![0x34, 0x12], true);
    assert_eq!(r, Err(SerdeError::InvalidLength(2)));
}

#[test]
fn visit_seq_without_size_hint() {
    let r = BinaryVisitor::<Le16>::new().visit_seq(None, vec![0x34, 0x12], false);
    assert_eq!(r, Ok(Le16(0x1234)));
    let r = BinaryVisitor::<Le16>::new().visit_seq(None, vec![], false);
    assert_eq!(r, Err(SerdeError::InvalidLength(0)));
}

#[test]
fn into_serde_keeps_each_distinction() {
    assert_eq!(
        FromHexError::InvalidLength(7).into_serde(Unexpected::Sequence),
        SerdeError::InvalidLength(7)
    );
    assert_eq!(
        FromHexError::InvalidHexCharacter(5, b'g').into_serde(Unexpected::Sequence),
        SerdeError::InvalidValue(Unexpected::Char('g'))
    );
    assert_eq!(
        FromHexError::InvalidValue.into_serde(Unexpected::Sequence),
        SerdeError::InvalidValue(Unexpected::Sequence)
    );
    assert_eq!(
        FromHexError::CustomStr("boom").into_serde(Unexpected::Sequence),
        SerdeError::InvalidValueMessage(Unexpected::Sequence, "boom".to_string())
    );
    assert_eq!(
        FromHexError::CustomString("gone".to_string()).into_serde(Unexpected::Str(
            "00".to_string()
        )),
        SerdeError::InvalidValueMessage(Unexpected::Str("00".to_string()), "gone".to_string())
    );
}

#[test]
fn metadata_of_the_provided_types() {
    assert_eq!(Le16::name(), "Le16");
    assert_eq!(Le16::byte_len(), Some(2));
    assert_eq!(Le16::expecting(), "a 16-bit value as 4 hexadecimal digits");
    assert_eq!(RawBytes::name(), "RawBytes");
    assert_eq!(RawBytes::byte_len(), None);
}

#[test]
fn binary_round_trip_through_both_sides() {
    let value = Le16(0xbeef);
    let out = serialize(false, &value);
    let fields = match out {
        SerializeOutput::TupleRecord { name, fields } => {
            assert_eq!(name, "Le16");
            fields
        },
        SerializeOutput::Text(_) => panic!("binary mode must not produce text"),
    };
    let back = BinaryVisitor::<Le16>::new().visit_seq(Some(2), fields, false);
    assert_eq!(back, Ok(value));
}

#[test]
fn human_readable_round_trip_through_both_sides() {
    let value = Le16(0xbeef);
    let out = serialize(true, &value);
    let text = match out {
        SerializeOutput::Text(text) => text,
        SerializeOutput::TupleRecord { .. } => {
            panic!("human-readable mode must not produce a record")
        },
    };
    assert_eq!(text, "efbe");
    let back = HexVisitor::<Le16>::new().visit_str(&text);
    assert_eq!(back, Ok(value));
}
