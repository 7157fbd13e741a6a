//! Hex encoding and decoding of byte strings.
//!
//! Tokens and keys travel over HTTP as lowercase hex strings. Encoding is
//! implemented and verified here; decoding is delegated to the `hex` crate
//! behind a trusted wrapper whose contract states exactly which strings
//! decode and to what.

use vstd::prelude::*;

verus! {

/// Is `c` a hex digit (either case)?
pub open spec fn is_hex_digit(c: char) -> bool {
    ('0' <= c && c <= '9') || ('a' <= c && c <= 'f') || ('A' <= c && c <= 'F')
}

/// Numeric value of a hex digit.
pub open spec fn hex_digit_value(c: char) -> u8 {
    if '0' <= c && c <= '9' {
        (c as u8 - '0' as u8) as u8
    } else if 'a' <= c && c <= 'f' {
        (c as u8 - 'a' as u8 + 10) as u8
    } else {
        (c as u8 - 'A' as u8 + 10) as u8
    }
}

/// A string decodes as hex when its length is even and every character is
/// a hex digit.
pub open spec fn is_hex_string(s: Seq<char>) -> bool {
    s.len() % 2 == 0 && forall|i: int| 0 <= i < s.len() ==> is_hex_digit(#[trigger] s[i])
}

/// The bytes a hex string stands for: two digits per byte, high digit first.
pub open spec fn hex_decoded(s: Seq<char>) -> Seq<u8> {
    Seq::new(s.len() / 2, |i: int| (hex_digit_value(s[2 * i]) * 16 + hex_digit_value(s[2 * i + 1])) as u8)
}

/// The lowercase hex digit for a value below 16.
pub open spec fn hex_digit_char(v: u8) -> char {
    HEX_DIGITS[v as int]
}

/// Lowercase hex encoding of a byte string: two digits per byte, high
/// digit first.
pub open spec fn hex_encoded(b: Seq<u8>) -> Seq<char> {
    Seq::new(b.len() * 2, |i: int| if i % 2 == 0 { hex_digit_char(b[i / 2] / 16) } else { hex_digit_char(b[i / 2] % 16) })
}

pub const HEX_DIGITS: [char; 16] = ['0', '1', '2', '3', '4', '5', '6', '7', '8', '9', 'a', 'b', 'c', 'd', 'e', 'f'];

/// Appends one character. Relies on `String::push`, which vstd leaves
/// unspecified: the string grows by exactly that character.
#[verifier::external_body]
pub(crate) fn push_char(s: &mut String, c: char)
    ensures
        final(s)@ == old(s)@.push(c),
{
    s.push(c);
}

/// Encodes bytes as a lowercase hex string.
pub fn to_hex(bytes: &[u8]) -> (r: String)
    ensures
        r@ == hex_encoded(bytes@),
{
    let mut r = String::new();
    let n = bytes.len();
    for i in 0..n
        invariant
            n == bytes@.len(),
            r@ =~= hex_encoded(bytes@.take(i as int)),
    {
        let b = bytes[i];
        push_char(&mut r, HEX_DIGITS[(b / 16) as usize]);
        push_char(&mut r, HEX_DIGITS[(b % 16) as usize]);
        proof {
            assert(r@ =~= hex_encoded(bytes@.take(i + 1)));
        }
    }
    proof {
        assert(bytes@.take(n as int) =~= bytes@);
    }
    r
}

/// Decodes a hex string. Relies on `hex::decode`: it succeeds exactly on
/// even-length strings of hex digits (either case) and returns one byte
/// per digit pair.
#[verifier::external_body]
pub(crate) fn from_hex(s: &str) -> (r: Option<Vec<u8>>)
    ensures
        match r {
            Some(v) => is_hex_string(s@) && v@ == hex_decoded(s@),
            None => !is_hex_string(s@),
        },
{
    hex::decode(s).ok()
}

/// Decoding inverts encoding: every byte string comes back from its own
/// hex rendering.
pub proof fn lemma_hex_round_trip(b: Seq<u8>)
    ensures
        is_hex_string(hex_encoded(b)),
        hex_decoded(hex_encoded(b)) =~= b,
{
    let s = hex_encoded(b);
    assert forall|i: int| 0 <= i < s.len() implies is_hex_digit(#[trigger] s[i]) by {
        let v = if i % 2 == 0 { b[i / 2] / 16 } else { b[i / 2] % 16 };
        assert(v < 16);
    }
    assert forall|i: int| 0 <= i < b.len() implies hex_decoded(s)[i] == b[i] by {
        assert(s[2 * i] == hex_digit_char(b[i] / 16));
        assert(s[2 * i + 1] == hex_digit_char(b[i] % 16));
        assert(hex_digit_value(hex_digit_char(b[i] / 16)) == b[i] / 16);
        assert(hex_digit_value(hex_digit_char(b[i] % 16)) == b[i] % 16);
    }
}

} // verus!
