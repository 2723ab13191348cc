//! The dual-mode serialization layer.
//!
//! A destination or source format is either human-readable or binary. For a
//! human-readable format a value travels as one text field holding its
//! hexadecimal representation; for a binary format it travels as a
//! tuple-like record bearing the type's name and holding one field per
//! byte, in order. The functions here decide what is written and what a
//! received payload means; driving an actual format's reader or writer is
//! left to unverified glue, which hands payloads in and out as plain
//! values.

use super::from_hex_spec;
use super::hex;
use super::spec_encode;
use super::spec_encode_chars;
use super::FromHexCore;
use super::ToHexCore;
use crate::FromHexError;
use crate::ParseHex;
use core::marker::PhantomData;
use vstd::prelude::*;

verus! {

use vstd::string::StringExecFns;
use vstd::string::StringSliceAdditionalSpecFns;

/// Metadata required for serialization and deserialization.
pub trait Metadata {
    /// The name of this type.
    spec fn spec_name() -> Seq<char>;

    /// A text describing the content of this type.
    spec fn spec_expecting() -> Seq<char>;

    /// The number of bytes in this type; `None` when the length is
    /// dynamic.
    spec fn spec_len() -> Option<usize>;

    /// The name of this type.
    fn name() -> (r: &'static str)
        ensures
            r@ == Self::spec_name(),
    ;

    /// A text describing the content of this type.
    fn expecting() -> (r: &'static str)
        ensures
            r@ == Self::spec_expecting(),
    ;

    /// The number of bytes in this type, `None` when the length is
    /// dynamic.
    fn byte_len() -> (r: Option<usize>)
        ensures
            r == Self::spec_len(),
    ;
}

/// The part of a rejected payload that a format error points at.
#[derive(Debug, PartialEq, Eq)]
pub enum Unexpected {
    /// A text field, with its content.
    Str(String),
    /// A sequence of fields.
    Sequence,
    /// A single character.
    Char(char),
}

/// A format-native error, as the deserialization layer asks the source
/// format to construct it: the most specific native category available
/// for each conversion failure.
#[derive(Debug, PartialEq, Eq)]
pub enum SerdeError {
    /// The payload has the wrong number of characters or fields.
    InvalidLength(usize),
    /// The payload holds an invalid value; the type's own description
    /// says what was expected.
    InvalidValue(Unexpected),
    /// The payload holds an invalid value; the message says what was
    /// expected.
    InvalidValueMessage(Unexpected, String),
    /// The type does not have a known length, which binary-mode
    /// deserialization needs; carries the type's name.
    LengthUnknown(String),
}

/// Which format-native errors `FromHexError::into_serde` admits: each
/// conversion error kind maps to its own native category, so downstream
/// diagnostics keep the length, character, value and message distinctions.
pub open spec fn into_serde_spec(e: FromHexError, unexp: Unexpected, r: SerdeError) -> bool {
    match e {
        FromHexError::InvalidLength(len) => r == SerdeError::InvalidLength(len),
        FromHexError::InvalidHexCharacter(_, c) => r == SerdeError::InvalidValue(
            Unexpected::Char(c as char),
        ),
        FromHexError::InvalidValue => r == SerdeError::InvalidValue(unexp),
        FromHexError::CustomStr(msg) => r matches SerdeError::InvalidValueMessage(u, s) && u
            == unexp && s@ == msg@,
        FromHexError::CustomString(msg) => r matches SerdeError::InvalidValueMessage(u, s) && u
            == unexp && s@ == msg@,
    }
}

impl FromHexError {
    /// Map this conversion error onto the format's native error taxonomy,
    /// blaming the `unexp` part of the payload where the kind carries no
    /// better position of its own.
    pub fn into_serde(self, unexp: Unexpected) -> (r: SerdeError)
        ensures
            into_serde_spec(self, unexp, r),
    {
        match self {
            FromHexError::InvalidLength(len) => SerdeError::InvalidLength(len),
            FromHexError::InvalidHexCharacter(_, c) => SerdeError::InvalidValue(
                Unexpected::Char(c as char),
            ),
            FromHexError::InvalidValue => SerdeError::InvalidValue(unexp),
            FromHexError::CustomStr(msg) => SerdeError::InvalidValueMessage(
                unexp,
                String::from_str(msg),
            ),
            FromHexError::CustomString(msg) => SerdeError::InvalidValueMessage(unexp, msg),
        }
    }
}

/// What the dual-mode serializer writes to the destination format.
#[derive(Debug, PartialEq, Eq)]
pub enum SerializeOutput {
    /// Human-readable mode: one text field holding the hexadecimal
    /// representation.
    Text(String),
    /// Binary mode: a tuple-like record bearing the type's name, holding
    /// one field per byte of the value, in order.
    TupleRecord { name: String, fields: Vec<u8> },
}

/// Serialize a `value`: its hexadecimal text when the destination format
/// is human-readable, a tuple record of its bytes under the type's name
/// otherwise.
pub fn serialize<T: ToHexCore + Metadata>(human_readable: bool, value: &T) -> (r: SerializeOutput)
    ensures
        human_readable ==> (r matches SerializeOutput::Text(t) && t@ == spec_encode_chars(
            value.byte_view(),
        )),
        !human_readable ==> (r matches SerializeOutput::TupleRecord { name, fields } && name@
            == T::spec_name() && fields@ == value.byte_view()),
{
    let bytes = value.to_binary_bytes();
    if human_readable {
        SerializeOutput::Text(hex::encode_hex_string(bytes.as_slice()))
    } else {
        serialize_bytes(T::name(), bytes.as_slice())
    }
}

/// Build the binary-mode output: a tuple record under `name` holding
/// every byte of `value` in order.
pub fn serialize_bytes(name: &'static str, value: &[u8]) -> (r: SerializeOutput)
    ensures
        (r matches SerializeOutput::TupleRecord { name: n, fields: f } && n@ == name@ && f@
            == value@),
{
    SerializeOutput::TupleRecord {
        name: String::from_str(name),
        fields: vstd::slice::slice_to_vec(value),
    }
}

/// What the dual-mode deserializer asks the source format for.
#[derive(Debug, PartialEq, Eq)]
pub enum DeserializeRequest {
    /// Human-readable mode: one text field, to be handed to `HexVisitor`.
    Text,
    /// Binary mode: a tuple record of exactly `len` byte fields, to be
    /// handed to `BinaryVisitor`.
    TupleRecord { len: usize },
}

/// Decide what to read for a value of type `T`: text when the source
/// format is human-readable; otherwise a tuple record of the type's
/// declared byte length, which binary mode requires to be known before
/// any field is decoded.
pub fn deserialize<T: FromHexCore + Metadata>(human_readable: bool) -> (r: Result<
    DeserializeRequest,
    SerdeError,
>)
    ensures
        human_readable ==> r == Ok::<DeserializeRequest, SerdeError>(DeserializeRequest::Text),
        !human_readable ==> match T::spec_len() {
            Some(n) => r == Ok::<DeserializeRequest, SerdeError>(
                DeserializeRequest::TupleRecord { len: n },
            ),
            None => (r matches Err(e) && e matches SerdeError::LengthUnknown(s) && s@
                == T::spec_name()),
        },
{
    if human_readable {
        Ok(DeserializeRequest::Text)
    } else {
        match T::byte_len() {
            Some(len) => Ok(DeserializeRequest::TupleRecord { len }),
            None => Err(SerdeError::LengthUnknown(String::from_str(T::name()))),
        }
    }
}

/// Reads the single text field of a human-readable payload.
pub struct HexVisitor<T> {
    seed: PhantomData<T>,
}

/// Whether `r` maps the hexadecimal parsing outcome `p` of a text with
/// the characters `text`: a parsed value passes through, a conversion
/// error is mapped onto the format's native taxonomy, blaming the text.
pub open spec fn maps_parse_outcome<T: FromHexCore>(
    text: Seq<char>,
    p: Result<T, FromHexError>,
    r: Result<T, SerdeError>,
) -> bool {
    match p {
        Ok(t) => r == Ok::<T, SerdeError>(t),
        Err(e) => r matches Err(se) && (exists|u: Unexpected|
            (u matches Unexpected::Str(s) && s@ == text) && #[trigger] into_serde_spec(
                e,
                u,
                se,
            )),
    }
}

/// Which results `HexVisitor::visit_str` admits for a text with the
/// characters `text` and the UTF-8 bytes `bytes`: the outcome of
/// hexadecimal parsing of the bytes, mapped by `maps_parse_outcome`.
pub open spec fn visit_str_spec<T: FromHexCore>(
    text: Seq<char>,
    bytes: Seq<u8>,
    r: Result<T, SerdeError>,
) -> bool {
    exists|p: Result<T, FromHexError>|
        #[trigger] from_hex_spec::<T>(bytes, p) && maps_parse_outcome::<T>(text, p, r)
}

impl<T: FromHexCore + Metadata> HexVisitor<T> {
    /// Create a visitor for the text field of a human-readable payload.
    pub fn new() -> (r: Self) {
        HexVisitor { seed: PhantomData }
    }

    /// Visit the text field of a human-readable payload.
    pub fn visit_str(self, v: &str) -> (r: Result<T, SerdeError>)
        ensures
            visit_str_spec::<T>(v@, v.spec_bytes(), r),
    {
        let p = v.parse_hex::<T>();
        let ghost gp = p;
        match p {
            Ok(t) => {
                proof {
                    assert(from_hex_spec::<T>(v.spec_bytes(), gp));
                }
                Ok(t)
            },
            Err(e) => {
                let ghost ge = e;
                let u = Unexpected::Str(String::from_str(v));
                let ghost gu = u;
                let se = e.into_serde(u);
                proof {
                    assert((gu matches Unexpected::Str(s) && s@ == v@) && into_serde_spec(
                        ge,
                        gu,
                        se,
                    ));
                    assert(from_hex_spec::<T>(v.spec_bytes(), gp) && maps_parse_outcome::<T>(
                        v@,
                        gp,
                        Err(se),
                    ));
                }
                Err(se)
            },
        }
    }
}

/// Reads the byte fields of a binary-mode tuple record.
pub struct BinaryVisitor<T> {
    seed: PhantomData<T>,
}

/// Which results `BinaryVisitor::visit_seq` admits when the source format
/// handed over the byte fields `fields` of a record, gave `size_hint` as
/// its length hint, and `trailing` says whether yet another field follows
/// the expected count: too few fields fail with an invalid-length error at
/// the index where the data ran out, an extra trailing field fails with an
/// invalid-length error, and otherwise the result is one the type's own
/// constructor admits for the fields, any conversion error mapped onto the
/// format's native taxonomy and blaming the sequence.
pub open spec fn visit_seq_spec<T: FromHexCore>(
    size_hint: Option<usize>,
    fields: Seq<u8>,
    trailing: bool,
    r: Result<T, SerdeError>,
) -> bool {
    let expected = T::spec_create_len(size_hint);
    if fields.len() < expected {
        r == Err::<T, SerdeError>(SerdeError::InvalidLength(fields.len() as usize))
    } else if trailing {
        r == Err::<T, SerdeError>(
            SerdeError::InvalidLength(
                match size_hint {
                    Some(n) => n,
                    None => fields.len() as usize,
                },
            ),
        )
    } else {
        exists|p: Result<T, FromHexError>|
            #[trigger] T::from_bytes_spec(fields, p) && match p {
                Ok(t) => r == Ok::<T, SerdeError>(t),
                Err(e) => r matches Err(se) && into_serde_spec(e, Unexpected::Sequence, se),
            }
    }
}

impl<T: FromHexCore + Metadata> BinaryVisitor<T> {
    /// Create a visitor for the fields of a binary-mode tuple record.
    pub fn new() -> (r: Self) {
        BinaryVisitor { seed: PhantomData }
    }

    /// Visit the byte fields of a binary-mode tuple record. The caller
    /// reads fields one at a time, stopping at the expected count or when
    /// the record runs out, and then probes for one more: `fields` holds
    /// what was read and `trailing` whether the probe found a field.
    pub fn visit_seq(self, size_hint: Option<usize>, fields: Vec<u8>, trailing: bool) -> (r:
        Result<T, SerdeError>)
        requires
            fields@.len() <= T::spec_create_len(size_hint),
        ensures
            visit_seq_spec::<T>(size_hint, fields@, trailing, r),
    {
        let buffer = T::create_bytes(size_hint);
        if fields.len() < buffer.len() {
            return Err(SerdeError::InvalidLength(fields.len()));
        }
        if trailing {
            let len = match size_hint {
                Some(n) => n,
                None => fields.len(),
            };
            return Err(SerdeError::InvalidLength(len));
        }
        let ghost gf = fields@;
        let p = T::from_binary_bytes(fields);
        let ghost gp = p;
        match p {
            Ok(t) => {
                proof {
                    assert(T::from_bytes_spec(gf, gp));
                }
                Ok(t)
            },
            Err(e) => {
                let ghost ge = e;
                let se = e.into_serde(Unexpected::Sequence);
                proof {
                    assert(T::from_bytes_spec(gf, gp) && into_serde_spec(
                        ge,
                        Unexpected::Sequence,
                        se,
                    ));
                }
                Err(se)
            },
        }
    }
}

/// Hexadecimal round trip through the conversion traits: for a value
/// whose constructor admits exactly the value itself for its own byte
/// representation, and whose decoding size matches that representation,
/// parsing the value's own hexadecimal encoding reconstructs the value.
pub proof fn lemma_parse_hex_round_trip<T: ToHexCore + FromHexCore>(
    v: T,
    r: Result<T, FromHexError>,
)
    requires
        v.byte_view().len() <= usize::MAX / 2,
        T::spec_create_len(Some(v.byte_view().len() as usize)) == v.byte_view().len(),
        forall|p: Result<T, FromHexError>|
            #[trigger] T::from_bytes_spec(v.byte_view(), p) ==> p == Ok::<T, FromHexError>(v),
        from_hex_spec::<T>(spec_encode(v.byte_view()), r),
    ensures
        r == Ok::<T, FromHexError>(v),
{
    hex::lemma_hex_round_trip(v.byte_view());
}

/// Human-readable round trip: serializing such a value to a
/// human-readable format produces its hexadecimal text (the `ensures` of
/// `serialize`), and visiting that text reconstructs the value.
pub proof fn lemma_human_readable_round_trip<T: ToHexCore + FromHexCore>(
    v: T,
    text: Seq<char>,
    r: Result<T, SerdeError>,
)
    requires
        v.byte_view().len() <= usize::MAX / 2,
        T::spec_create_len(Some(v.byte_view().len() as usize)) == v.byte_view().len(),
        forall|p: Result<T, FromHexError>|
            #[trigger] T::from_bytes_spec(v.byte_view(), p) ==> p == Ok::<T, FromHexError>(v),
        text == spec_encode_chars(v.byte_view()),
        visit_str_spec::<T>(text, vstd::utf8::encode_utf8(text), r),
    ensures
        r == Ok::<T, SerdeError>(v),
{
    hex::lemma_encode_chars_ascii(v.byte_view());
    hex::lemma_hex_round_trip(v.byte_view());
    let bytes = vstd::utf8::encode_utf8(text);
    let p = choose|p: Result<T, FromHexError>|
        #[trigger] from_hex_spec::<T>(bytes, p) && maps_parse_outcome::<T>(text, p, r);
    lemma_parse_hex_round_trip(v, p);
}

/// Binary round trip: for a value whose constructor admits exactly the
/// value itself for its own byte representation, and whose decoding size
/// under the given hint matches that representation, visiting the
/// serialized byte fields with no trailing field reconstructs the value.
pub proof fn lemma_binary_round_trip<T: ToHexCore + FromHexCore>(
    v: T,
    size_hint: Option<usize>,
    r: Result<T, SerdeError>,
)
    requires
        T::spec_create_len(size_hint) == v.byte_view().len(),
        forall|p: Result<T, FromHexError>|
            #[trigger] T::from_bytes_spec(v.byte_view(), p) ==> p == Ok::<T, FromHexError>(v),
        visit_seq_spec::<T>(size_hint, v.byte_view(), false, r),
    ensures
        r == Ok::<T, SerdeError>(v),
{
}

} // verus!
