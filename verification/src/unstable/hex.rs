//! The hexadecimal codec: transcoding between a byte sequence and its
//! lowercase hexadecimal text representation, with strict validation.

use crate::FromHexError;
use vstd::prelude::*;

verus! {

/// Whether `c` is an ASCII hexadecimal digit (`0-9`, `A-F` or `a-f`).
pub open spec fn is_hex_digit(c: u8) -> bool {
    (0x30 <= c && c <= 0x39) || (0x41 <= c && c <= 0x46) || (0x61 <= c && c <= 0x66)
}

/// The 4-bit value of the hexadecimal digit `c`, case-insensitive.
/// Meaningful only when `is_hex_digit(c)` holds.
pub open spec fn spec_nibble_value(c: u8) -> u8 {
    if 0x41 <= c && c <= 0x46 {
        (c - 0x41 + 10) as u8
    } else if 0x61 <= c && c <= 0x66 {
        (c - 0x61 + 10) as u8
    } else {
        (c - 0x30) as u8
    }
}

/// The lowercase hexadecimal digit of the 4-bit value `n`.
pub open spec fn spec_hex_digit(n: u8) -> u8 {
    if n < 10 {
        (0x30 + n) as u8
    } else {
        (0x57 + n) as u8
    }
}

/// The lowercase hexadecimal encoding of a byte sequence: byte `i` maps to
/// the digits of its high and low nibble at positions `2 * i` and `2 * i + 1`.
pub open spec fn spec_encode(s: Seq<u8>) -> Seq<u8> {
    Seq::new(
        s.len() * 2,
        |i: int|
            if i % 2 == 0 {
                spec_hex_digit(s[i / 2] >> 4)
            } else {
                spec_hex_digit(s[i / 2] & 0x0f)
            },
    )
}

/// The hexadecimal encoding of a byte sequence, as text.
pub open spec fn spec_encode_chars(s: Seq<u8>) -> Seq<char> {
    spec_encode(s).map_values(|b: u8| b as char)
}

/// Whether every byte of `s` is a hexadecimal digit.
pub open spec fn all_hex_digits(s: Seq<u8>) -> bool {
    forall|i: int| 0 <= i < s.len() ==> is_hex_digit(#[trigger] s[i])
}

/// The position of the leftmost byte of `s` that is not a hexadecimal digit.
/// Meaningful only when `all_hex_digits(s)` does not hold.
pub open spec fn first_invalid_index(s: Seq<u8>) -> int
    decreases s.len(),
{
    if s.len() == 0 {
        0
    } else if !is_hex_digit(s[0]) {
        0
    } else {
        1 + first_invalid_index(s.subrange(1, s.len() as int))
    }
}

/// The byte denoted by the two hexadecimal digits `c0` (high nibble) and
/// `c1` (low nibble).
pub open spec fn spec_byte_of(c0: u8, c1: u8) -> u8 {
    (spec_nibble_value(c0) << 4) | spec_nibble_value(c1)
}

/// The byte sequence denoted by a sequence of hexadecimal digits, read
/// pairwise, high nibble first. Meaningful only when `s` has even length
/// and every byte is a hexadecimal digit.
pub open spec fn spec_decode(s: Seq<u8>) -> Seq<u8> {
    Seq::new(s.len() / 2, |i: int| spec_byte_of(s[2 * i], s[2 * i + 1]))
}

/// A position that is not a hexadecimal digit, with only digits to its
/// left, is the leftmost invalid position.
pub proof fn lemma_first_invalid_index(s: Seq<u8>, p: int)
    requires
        0 <= p < s.len(),
        !is_hex_digit(s[p]),
        forall|j: int| 0 <= j < p ==> is_hex_digit(#[trigger] s[j]),
    ensures
        first_invalid_index(s) == p,
    decreases p,
{
    if p > 0 {
        let t = s.subrange(1, s.len() as int);
        assert forall|j: int| 0 <= j < p - 1 implies is_hex_digit(#[trigger] t[j]) by {
            assert(t[j] == s[j + 1]);
        }
        lemma_first_invalid_index(t, p - 1);
    }
}

/// Convert the hexadecimal digit `c`, found at character index `i`, to its
/// 4-bit value, or report it as invalid at that index.
pub(crate) fn from_hex(i: usize, c: u8) -> (r: Result<u8, FromHexError>)
    ensures
        is_hex_digit(c) ==> r == Ok::<u8, FromHexError>(spec_nibble_value(c)),
        !is_hex_digit(c) ==> r == Err::<u8, FromHexError>(FromHexError::InvalidHexCharacter(i, c)),
{
    if 0x41 <= c && c <= 0x46 {
        Ok(c - 0x41 + 10)
    } else if 0x61 <= c && c <= 0x66 {
        Ok(c - 0x61 + 10)
    } else if 0x30 <= c && c <= 0x39 {
        Ok(c - 0x30)
    } else {
        Err(FromHexError::InvalidHexCharacter(i, c))
    }
}

/// Read the byte whose digits stand at character indices `2 * i` and
/// `2 * i + 1`, failing at the leftmost invalid digit of the pair.
pub(crate) fn read_hex(i: usize, c0: u8, c1: u8) -> (r: Result<u8, FromHexError>)
    requires
        2 * i + 1 <= usize::MAX,
    ensures
        is_hex_digit(c0) && is_hex_digit(c1) ==> r == Ok::<u8, FromHexError>(spec_byte_of(c0, c1)),
        !is_hex_digit(c0) ==> r == Err::<u8, FromHexError>(
            FromHexError::InvalidHexCharacter((2 * i) as usize, c0),
        ),
        is_hex_digit(c0) && !is_hex_digit(c1) ==> r == Err::<u8, FromHexError>(
            FromHexError::InvalidHexCharacter((2 * i + 1) as usize, c1),
        ),
{
    let n0 = match from_hex(2 * i, c0) {
        Ok(n) => n,
        Err(e) => {
            return Err(e);
        },
    };
    let n1 = match from_hex(2 * i + 1, c1) {
        Ok(n) => n,
        Err(e) => {
            return Err(e);
        },
    };
    Ok((n0 << 4) | n1)
}

/// Decode a hexadecimal `value` into a binary `buffer`.
///
/// Fails with `InvalidLength` when the text is not exactly twice as long as
/// the buffer, and with `InvalidHexCharacter` at the leftmost byte of the
/// text that is not a hexadecimal digit; on failure the buffer's contents
/// are unspecified.
pub fn decode_hex(value: &[u8], buffer: &mut Vec<u8>) -> (r: Result<(), FromHexError>)
    ensures
        final(buffer)@.len() == old(buffer)@.len(),
        value@.len() != old(buffer)@.len() * 2 ==> r == Err::<(), FromHexError>(
            FromHexError::InvalidLength(value@.len() as usize),
        ),
        value@.len() == old(buffer)@.len() * 2 && all_hex_digits(value@) ==> r == Ok::<
            (),
            FromHexError,
        >(()) && final(buffer)@ == spec_decode(value@),
        value@.len() == old(buffer)@.len() * 2 && !all_hex_digits(value@) ==> r == Err::<
            (),
            FromHexError,
        >(
            FromHexError::InvalidHexCharacter(
                first_invalid_index(value@) as usize,
                value@[first_invalid_index(value@)],
            ),
        ),
{
    if value.len() % 2 != 0 || value.len() / 2 != buffer.len() {
        return Err(FromHexError::InvalidLength(value.len()));
    }
    let n = buffer.len();
    let mut i: usize = 0;
    while i < n
        invariant
            n == buffer@.len(),
            n == old(buffer)@.len(),
            value@.len() == n * 2,
            n * 2 <= usize::MAX,
            i <= n,
            forall|j: int| 0 <= j < 2 * i ==> is_hex_digit(#[trigger] value@[j]),
            forall|j: int| 0 <= j < i ==> buffer@[j] == #[trigger] spec_decode(value@)[j],
        decreases n - i,
    {
        let c0 = value[2 * i];
        let c1 = value[2 * i + 1];
        match read_hex(i, c0, c1) {
            Ok(b) => {
                buffer[i] = b;
            },
            Err(e) => {
                proof {
                    if !is_hex_digit(value@[2 * i]) {
                        lemma_first_invalid_index(value@, 2 * i);
                    } else {
                        lemma_first_invalid_index(value@, 2 * i + 1);
                    }
                }
                return Err(e);
            },
        }
        i = i + 1;
    }
    proof {
        assert(buffer@ =~= spec_decode(value@));
    }
    Ok(())
}

/// The lowercase hexadecimal digit of `n`, as a one-character text.
pub(crate) fn hex_digit_str(n: u8) -> (r: &'static str)
    requires
        n < 16,
    ensures
        r@.len() == 1,
        r@[0] == spec_hex_digit(n) as char,
{
    proof {
        reveal_strlit("0");
        reveal_strlit("1");
        reveal_strlit("2");
        reveal_strlit("3");
        reveal_strlit("4");
        reveal_strlit("5");
        reveal_strlit("6");
        reveal_strlit("7");
        reveal_strlit("8");
        reveal_strlit("9");
        reveal_strlit("a");
        reveal_strlit("b");
        reveal_strlit("c");
        reveal_strlit("d");
        reveal_strlit("e");
        reveal_strlit("f");
    }
    if n == 0 {
        "0"
    } else if n == 1 {
        "1"
    } else if n == 2 {
        "2"
    } else if n == 3 {
        "3"
    } else if n == 4 {
        "4"
    } else if n == 5 {
        "5"
    } else if n == 6 {
        "6"
    } else if n == 7 {
        "7"
    } else if n == 8 {
        "8"
    } else if n == 9 {
        "9"
    } else if n == 10 {
        "a"
    } else if n == 11 {
        "b"
    } else if n == 12 {
        "c"
    } else if n == 13 {
        "d"
    } else if n == 14 {
        "e"
    } else {
        "f"
    }
}

/// Write the two hexadecimal digits of byte `a` at positions `2 * i` and
/// `2 * i + 1` of `buffer`.
pub(crate) fn write_hex(a: u8, i: usize, buffer: &mut Vec<u8>)
    requires
        2 * i + 1 < old(buffer)@.len(),
    ensures
        final(buffer)@ == old(buffer)@.update(2 * (i as int), spec_hex_digit(a >> 4)).update(
            2 * (i as int) + 1,
            spec_hex_digit(a & 0x0f),
        ),
{
    let len = buffer.len();
    proof {
        assert(a >> 4 < 16 && a & 0x0f < 16) by (bit_vector);
    }
    let hi = hex_digit(a >> 4);
    let lo = hex_digit(a & 0x0f);
    buffer[2 * i] = hi;
    buffer[2 * i + 1] = lo;
}

/// The lowercase hexadecimal digit of the 4-bit value `n`, as a byte.
pub(crate) fn hex_digit(n: u8) -> (r: u8)
    requires
        n < 16,
    ensures
        r == spec_hex_digit(n),
{
    if n < 10 {
        0x30 + n
    } else {
        0x57 + n
    }
}

/// Encode a binary `value` into the `buffer` as its hexadecimal
/// representation, and return that representation as text.
///
/// The buffer must be exactly twice as long as the value: that is a
/// contract on the caller, not a recoverable error.
pub fn encode_hex(value: &[u8], buffer: &mut Vec<u8>) -> (text: String)
    requires
        old(buffer)@.len() == value@.len() * 2,
    ensures
        final(buffer)@ == spec_encode(value@),
        text@ == spec_encode_chars(value@),
{
    let mut text = String::new();
    let n = value.len();
    let mut i: usize = 0;
    while i < n
        invariant
            n == value@.len(),
            buffer@.len() == n * 2,
            i <= n,
            text@.len() == 2 * i,
            forall|j: int| 0 <= j < 2 * i ==> buffer@[j] == #[trigger] spec_encode(value@)[j],
            forall|j: int| 0 <= j < 2 * i ==> text@[j] == #[trigger] spec_encode_chars(value@)[j],
        decreases n - i,
    {
        let a = value[i];
        proof {
            assert(a >> 4 < 16 && a & 0x0f < 16) by (bit_vector);
        }
        write_hex(a, i, buffer);
        text.append(hex_digit_str(a >> 4));
        text.append(hex_digit_str(a & 0x0f));
        i = i + 1;
    }
    proof {
        assert(buffer@ =~= spec_encode(value@));
        assert(text@ =~= spec_encode_chars(value@));
    }
    text
}

/// The hexadecimal representation of `value`, as text.
pub(crate) fn encode_hex_string(value: &[u8]) -> (text: String)
    ensures
        text@ == spec_encode_chars(value@),
{
    let mut text = String::new();
    let n = value.len();
    let mut i: usize = 0;
    while i < n
        invariant
            n == value@.len(),
            i <= n,
            text@.len() == 2 * i,
            forall|j: int| 0 <= j < 2 * i ==> text@[j] == #[trigger] spec_encode_chars(value@)[j],
        decreases n - i,
    {
        let a = value[i];
        proof {
            assert(a >> 4 < 16 && a & 0x0f < 16) by (bit_vector);
        }
        text.append(hex_digit_str(a >> 4));
        text.append(hex_digit_str(a & 0x0f));
        i = i + 1;
    }
    proof {
        assert(text@ =~= spec_encode_chars(value@));
    }
    text
}

/// Round trip: decoding the encoding of any byte sequence gives that
/// sequence back, the encoding is exactly twice as long, and every byte of
/// the encoding is a hexadecimal digit.
pub proof fn lemma_hex_round_trip(b: Seq<u8>)
    ensures
        spec_encode(b).len() == 2 * b.len(),
        all_hex_digits(spec_encode(b)),
        spec_decode(spec_encode(b)) == b,
{
    let e = spec_encode(b);
    assert forall|i: int| 0 <= i < e.len() implies is_hex_digit(#[trigger] e[i]) by {
        let a = b[i / 2];
        assert(a >> 4 < 16 && a & 0x0f < 16) by (bit_vector);
    }
    assert forall|i: int| 0 <= i < b.len() implies spec_decode(e)[i] == b[i] by {
        let a = b[i];
        assert(a >> 4 < 16 && a & 0x0f < 16) by (bit_vector);
        assert(e[2 * i] == spec_hex_digit(a >> 4));
        assert(e[2 * i + 1] == spec_hex_digit(a & 0x0f));
        assert(((a >> 4) << 4) | (a & 0x0f) == a) by (bit_vector);
    }
    assert(spec_decode(e) =~= b);
}

/// Maps a lowercase ASCII letter to its uppercase counterpart; any other
/// byte is unchanged.
pub open spec fn ascii_upper(c: u8) -> u8 {
    if 0x61 <= c && c <= 0x7a {
        (c - 0x20) as u8
    } else {
        c
    }
}

/// Case insensitivity: uppercasing a hexadecimal text changes neither its
/// validity nor what it decodes to.
pub proof fn lemma_decode_case_insensitive(s: Seq<u8>)
    ensures
        all_hex_digits(s.map_values(|c: u8| ascii_upper(c))) <==> all_hex_digits(s),
        all_hex_digits(s) ==> spec_decode(s.map_values(|c: u8| ascii_upper(c))) == spec_decode(s),
{
    let u = s.map_values(|c: u8| ascii_upper(c));
    assert(u.len() == s.len());
    assert forall|i: int| 0 <= i < s.len() implies is_hex_digit(#[trigger] u[i]) == is_hex_digit(
        s[i],
    ) by {
        assert(u[i] == ascii_upper(s[i]));
    }
    if all_hex_digits(s) {
        assert(all_hex_digits(u));
        assert forall|i: int| 0 <= i < s.len() / 2 implies spec_decode(u)[i] == #[trigger] spec_decode(
            s,
        )[i] by {
            assert(u[2 * i] == ascii_upper(s[2 * i]));
            assert(u[2 * i + 1] == ascii_upper(s[2 * i + 1]));
            assert(is_hex_digit(s[2 * i]) && is_hex_digit(s[2 * i + 1]));
        }
        assert(spec_decode(u) =~= spec_decode(s));
    }
    if all_hex_digits(u) {
        assert forall|i: int| 0 <= i < s.len() implies is_hex_digit(#[trigger] s[i]) by {
            assert(is_hex_digit(u[i]));
        }
    }
}

/// Determinism: the encoding and decoding contracts admit exactly one
/// result for a given input, so any two results for that input are
/// identical.
pub proof fn lemma_codec_deterministic(s: Seq<u8>, e1: Seq<u8>, e2: Seq<u8>, d1: Seq<u8>, d2: Seq<u8>)
    requires
        e1 == spec_encode(s),
        e2 == spec_encode(s),
        d1 == spec_decode(s),
        d2 == spec_decode(s),
    ensures
        e1 == e2,
        d1 == d2,
{
}

/// The hexadecimal text of a byte sequence is ASCII, and its UTF-8 bytes
/// are exactly the hexadecimal encoding of the sequence.
pub proof fn lemma_encode_chars_ascii(s: Seq<u8>)
    ensures
        vstd::utf8::is_ascii_chars(spec_encode_chars(s)),
        vstd::utf8::encode_utf8(spec_encode_chars(s)) == spec_encode(s),
{
    let chars = spec_encode_chars(s);
    let e = spec_encode(s);
    assert forall|i: int| 0 <= i < chars.len() implies '\0' <= #[trigger] chars[i] <= '\u{7f}' by {
        let a = s[i / 2];
        assert(a >> 4 < 16 && a & 0x0f < 16) by (bit_vector);
        assert(chars[i] == e[i] as char);
    }
    vstd::utf8::is_ascii_chars_encode_utf8(chars);
    assert forall|i: int| 0 <= i < chars.len() implies vstd::utf8::encode_utf8(chars)[i] == e[i] by {
        let a = s[i / 2];
        assert(a >> 4 < 16 && a & 0x0f < 16) by (bit_vector);
        assert(chars[i] == e[i] as char);
    }
    assert(vstd::utf8::encode_utf8(chars) =~= e);
}

} // verus!
