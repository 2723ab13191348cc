//! Ready-made binary-representable types: a fixed-size little-endian
//! 16-bit word and a dynamically sized byte string. They show how a type
//! joins the conversion traits and give the serialization layer concrete
//! instances.

use crate::unstable::serde::lemma_parse_hex_round_trip;
use crate::unstable::serde::Metadata;
use crate::unstable::from_hex_spec;
use crate::unstable::spec_encode;
use crate::unstable::FromHexCore;
use crate::unstable::ToHexCore;
use crate::FromHexError;
use vstd::prelude::*;

verus! {

/// A 16-bit value whose canonical byte representation is little-endian:
/// low byte first.
#[derive(Debug, Clone, Copy, PartialEq, Eq, Structural)]
pub struct Le16(pub u16);

impl ToHexCore for Le16 {
    open spec fn byte_view(&self) -> Seq<u8> {
        seq![(self.0 & 0xff) as u8, (self.0 >> 8) as u8]
    }

    fn to_binary_bytes(&self) -> (r: Vec<u8>) {
        let ghost x = self.0;
        proof {
            assert(x & 0xff < 256 && x >> 8 < 256) by (bit_vector);
        }
        let mut r = Vec::new();
        r.push((self.0 & 0xff) as u8);
        r.push((self.0 >> 8) as u8);
        proof {
            assert(r@ =~= self.byte_view());
        }
        r
    }
}

impl FromHexCore for Le16 {
    open spec fn spec_create_len(len: Option<usize>) -> nat {
        2
    }

    open spec fn from_bytes_spec(bytes: Seq<u8>, r: Result<Le16, FromHexError>) -> bool {
        if bytes.len() == 2 {
            r == Ok::<Le16, FromHexError>(Le16((bytes[0] as u16) | ((bytes[1] as u16) << 8)))
        } else {
            r == Err::<Le16, FromHexError>(FromHexError::InvalidLength(bytes.len() as usize))
        }
    }

    fn create_bytes(_len: Option<usize>) -> (v: Vec<u8>) {
        let mut v = Vec::new();
        v.push(0u8);
        v.push(0u8);
        v
    }

    fn from_binary_bytes(bytes: Vec<u8>) -> (r: Result<Self, FromHexError>) {
        if bytes.len() == 2 {
            let lo = bytes[0];
            let hi = bytes[1];
            Ok(Le16((lo as u16) | ((hi as u16) << 8)))
        } else {
            Err(FromHexError::InvalidLength(bytes.len()))
        }
    }
}

impl Metadata for Le16 {
    open spec fn spec_name() -> Seq<char> {
        "Le16"@
    }

    open spec fn spec_expecting() -> Seq<char> {
        "a 16-bit value as 4 hexadecimal digits"@
    }

    open spec fn spec_len() -> Option<usize> {
        Some(2usize)
    }

    fn name() -> (r: &'static str) {
        "Le16"
    }

    fn expecting() -> (r: &'static str) {
        "a 16-bit value as 4 hexadecimal digits"
    }

    fn byte_len() -> (r: Option<usize>) {
        Some(2)
    }
}

/// A `Le16`'s own constructor admits exactly the `Le16` itself for the
/// `Le16`'s byte representation, whose length is the declared one: the
/// premises of the round-trip lemmas of the serialization layer.
pub proof fn lemma_le16_reconstructs(v: Le16)
    ensures
        Le16::spec_create_len(Some(2usize)) == v.byte_view().len(),
        forall|p: Result<Le16, FromHexError>|
            #[trigger] Le16::from_bytes_spec(v.byte_view(), p) ==> p == Ok::<Le16, FromHexError>(
                v,
            ),
{
    let x = v.0;
    assert((((x & 0xff) as u8) as u16) | ((((x >> 8) as u8) as u16) << 8) == x) by (bit_vector);
}

/// Parsing the hexadecimal encoding of a `Le16` gives that `Le16` back:
/// the round-trip law of the serialization layer, at this type.
pub proof fn lemma_le16_parse_round_trip(v: Le16, r: Result<Le16, FromHexError>)
    requires
        from_hex_spec::<Le16>(spec_encode(v.byte_view()), r),
    ensures
        r == Ok::<Le16, FromHexError>(v),
{
    lemma_le16_reconstructs(v);
    lemma_parse_hex_round_trip(v, r);
}

/// A byte string of dynamic length; its canonical byte representation is
/// itself.
#[derive(Debug, PartialEq, Eq)]
pub struct RawBytes(pub Vec<u8>);

impl ToHexCore for RawBytes {
    open spec fn byte_view(&self) -> Seq<u8> {
        self.0@
    }

    fn to_binary_bytes(&self) -> (r: Vec<u8>) {
        vstd::slice::slice_to_vec(self.0.as_slice())
    }
}

impl FromHexCore for RawBytes {
    open spec fn spec_create_len(len: Option<usize>) -> nat {
        match len {
            Some(n) => n as nat,
            None => 0,
        }
    }

    open spec fn from_bytes_spec(bytes: Seq<u8>, r: Result<RawBytes, FromHexError>) -> bool {
        r matches Ok(v) && v.0@ == bytes
    }

    fn create_bytes(len: Option<usize>) -> (v: Vec<u8>) {
        let n = match len {
            Some(n) => n,
            None => 0,
        };
        let v = vec![0u8; n];
        v
    }

    fn from_binary_bytes(bytes: Vec<u8>) -> (r: Result<Self, FromHexError>) {
        Ok(RawBytes(bytes))
    }
}

impl Metadata for RawBytes {
    open spec fn spec_name() -> Seq<char> {
        "RawBytes"@
    }

    open spec fn spec_expecting() -> Seq<char> {
        "an even number of hexadecimal digits"@
    }

    open spec fn spec_len() -> Option<usize> {
        None
    }

    fn name() -> (r: &'static str) {
        "RawBytes"
    }

    fn expecting() -> (r: &'static str) {
        "an even number of hexadecimal digits"
    }

    fn byte_len() -> (r: Option<usize>) {
        None
    }
}


/// A `RawBytes`'s constructor admits, for a `RawBytes`'s own byte
/// representation, exactly the values whose content is that
/// representation.
pub proof fn lemma_raw_bytes_reconstructs(v: RawBytes)
    ensures
        forall|p: Result<RawBytes, FromHexError>|
            #[trigger] RawBytes::from_bytes_spec(v.byte_view(), p) ==> (p matches Ok(w) && w.0@
                == v.0@),
{
}

} // verus!
