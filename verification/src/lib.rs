//! Conversions between binary-representable values and hexadecimal text.
//!
//! A value that exposes its canonical byte representation (the
//! [`unstable::ToHexCore`] and [`unstable::FromHexCore`] capability traits)
//! gets a uniform set of conversions: a lowercase hexadecimal text form
//! ([`ToHex`], [`FromHex`], [`ParseHex`]) and a dual-mode serialized form
//! (see [`unstable::serde`]), selecting between hex text and a compact
//! byte-tuple record depending on whether the target format is
//! human-readable.

use vstd::prelude::*;

pub mod types;
pub mod unstable;

verus! {

use vstd::string::StringSliceAdditionalSpecFns;

/// An error occurred while converting from a hexadecimal value.
#[derive(Debug, PartialEq, Eq)]
pub enum FromHexError {
    /// The number of bytes is not valid.
    InvalidLength(usize),
    /// The character at the given index is invalid.
    InvalidHexCharacter(usize, u8),
    /// The value is not valid.
    InvalidValue,
    /// A custom error (static string reference).
    CustomStr(&'static str),
    /// A custom error (owned message).
    CustomString(String),
}

/// A type that can be converted to a hexadecimal representation.
pub trait ToHex: unstable::ToHexCore {
    /// Get a hexadecimal representation: two lowercase digits for each
    /// byte of the value's canonical byte representation.
    fn to_hex(&self) -> (r: String)
        ensures
            r@ == unstable::spec_encode_chars(self.byte_view()),
    ;
}

impl<T: unstable::ToHexCore> ToHex for T {
    fn to_hex(&self) -> (r: String) {
        unstable::with_hex_str(
            self,
            (|s: String| -> (out: String)
                ensures
                    out == s,
                { s }),
        )
    }
}

/// A type that can be created from a hexadecimal representation.
pub trait FromHex: unstable::FromHexCore {
    /// Try to create an instance of this type from a hexadecimal
    /// representation; see `unstable::from_hex_spec` for the exact
    /// outcomes.
    fn from_hex(buf: &[u8]) -> (r: Result<Self, FromHexError>)
        ensures
            unstable::from_hex_spec::<Self>(buf@, r),
    ;
}

impl<T: unstable::FromHexCore> FromHex for T {
    fn from_hex(buf: &[u8]) -> (r: Result<Self, FromHexError>) {
        if buf.len() % 2 != 0 {
            return Err(FromHexError::InvalidLength(buf.len()));
        }
        let mut bytes = Self::create_bytes(Some(buf.len() / 2));
        if bytes.len() != buf.len() / 2 {
            return Err(FromHexError::InvalidLength(buf.len()));
        }
        match unstable::decode_hex(buf, &mut bytes) {
            Ok(()) => Self::from_binary_bytes(bytes),
            Err(e) => Err(e),
        }
    }
}

/// Parse a hexadecimal value.
pub trait ParseHex: Sized {
    /// The bytes of this hexadecimal text.
    spec fn hex_input(self) -> Seq<u8>;

    /// Parse the hexadecimal representation and create a value of type
    /// `T`; see `unstable::from_hex_spec` for the exact outcomes.
    fn parse_hex<T: FromHex>(self) -> (r: Result<T, FromHexError>)
        ensures
            unstable::from_hex_spec::<T>(self.hex_input(), r),
    ;
}

impl ParseHex for &str {
    open spec fn hex_input(self) -> Seq<u8> {
        self.spec_bytes()
    }

    fn parse_hex<T: FromHex>(self) -> (r: Result<T, FromHexError>) {
        self.as_bytes().parse_hex()
    }
}

impl ParseHex for &[u8] {
    open spec fn hex_input(self) -> Seq<u8> {
        self@
    }

    fn parse_hex<T: FromHex>(self) -> (r: Result<T, FromHexError>) {
        T::from_hex(self)
    }
}

} // verus!
