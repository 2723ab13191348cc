//! Unstable traits and functions.
//!
//! All traits and functions in this module are unstable. They could change in
//! the future.

mod hex;
pub mod serde;

use crate::FromHexError;
use vstd::prelude::*;

pub use hex::all_hex_digits;
pub use hex::decode_hex;
pub use hex::encode_hex;
pub use hex::first_invalid_index;
pub use hex::is_hex_digit;
pub use hex::lemma_codec_deterministic;
pub use hex::lemma_decode_case_insensitive;
pub use hex::lemma_encode_chars_ascii;
pub use hex::lemma_first_invalid_index;
pub use hex::lemma_hex_round_trip;
pub use hex::spec_decode;
pub use hex::spec_encode;
pub use hex::spec_encode_chars;

verus! {

/// Convert a type to a binary or hexadecimal representation.
pub trait ToHexCore {
    /// The canonical byte representation of this value.
    spec fn byte_view(&self) -> Seq<u8>;

    /// Return the binary representation of this value.
    fn to_binary_bytes(&self) -> (r: Vec<u8>)
        ensures
            r@ == self.byte_view(),
    ;
}

/// Create a type from a binary or hexadecimal representation.
pub trait FromHexCore: Sized {
    /// The length of the byte buffer this type decodes into, given the
    /// suggested byte length `len`. A fixed-size type ignores `len`.
    spec fn spec_create_len(len: Option<usize>) -> nat;

    /// Which results this type's fallible constructor admits for the byte
    /// representation `bytes`.
    spec fn from_bytes_spec(bytes: Seq<u8>, r: Result<Self, FromHexError>) -> bool;

    /// Create a byte buffer of this type's decoding size.
    fn create_bytes(len: Option<usize>) -> (v: Vec<u8>)
        ensures
            v@.len() == Self::spec_create_len(len),
    ;

    /// Create an instance of this type from `bytes`.
    fn from_binary_bytes(bytes: Vec<u8>) -> (r: Result<Self, FromHexError>)
        ensures
            Self::from_bytes_spec(bytes@, r),
    ;
}

/// Which results `FromHex::from_hex` admits for the hexadecimal text `buf`:
/// an odd or mismatched length fails with `InvalidLength`, the leftmost
/// byte that is not a hexadecimal digit fails with `InvalidHexCharacter`,
/// and otherwise the result is one the type's own constructor admits for
/// the decoded bytes.
pub open spec fn from_hex_spec<T: FromHexCore>(buf: Seq<u8>, r: Result<T, FromHexError>) -> bool {
    if buf.len() % 2 != 0 {
        r == Err::<T, FromHexError>(FromHexError::InvalidLength(buf.len() as usize))
    } else if T::spec_create_len(Some((buf.len() / 2) as usize)) * 2 != buf.len() {
        r == Err::<T, FromHexError>(FromHexError::InvalidLength(buf.len() as usize))
    } else if !all_hex_digits(buf) {
        r == Err::<T, FromHexError>(
            FromHexError::InvalidHexCharacter(
                first_invalid_index(buf) as usize,
                buf[first_invalid_index(buf)],
            ),
        )
    } else {
        T::from_bytes_spec(spec_decode(buf), r)
    }
}

/// Hand the hexadecimal representation of a `value` to `f` and return what
/// `f` returns.
pub fn with_hex_str<T, U, F>(value: &T, f: F) -> (r: U) where
    T: ToHexCore,
    F: FnOnce(String) -> U,

    requires
        forall|s: String| s@ == spec_encode_chars(value.byte_view()) ==> call_requires(f, (s,)),
    ensures
        exists|s: String| s@ == spec_encode_chars(value.byte_view()) && call_ensures(f, (s,), r),
{
    let bytes = value.to_binary_bytes();
    let text = hex::encode_hex_string(bytes.as_slice());
    let ghost snapshot = text;
    let r = f(text);
    proof {
        assert(snapshot@ == spec_encode_chars(value.byte_view()) && call_ensures(
            f,
            (snapshot,),
            r,
        ));
    }
    r
}

} // verus!
