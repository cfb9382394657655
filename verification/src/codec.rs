//! Text wire format for key and signature bytes: lowercase hex, two digits
//! per byte, no prefix.

use vstd::prelude::*;

verus! {

/// The lowercase hex digit of a value below 16.
pub open spec fn spec_hex_digit(n: u8) -> char
    recommends
        n < 16,
{
    if n == 0 {
        '0'
    } else if n == 1 {
        '1'
    } else if n == 2 {
        '2'
    } else if n == 3 {
        '3'
    } else if n == 4 {
        '4'
    } else if n == 5 {
        '5'
    } else if n == 6 {
        '6'
    } else if n == 7 {
        '7'
    } else if n == 8 {
        '8'
    } else if n == 9 {
        '9'
    } else if n == 10 {
        'a'
    } else if n == 11 {
        'b'
    } else if n == 12 {
        'c'
    } else if n == 13 {
        'd'
    } else if n == 14 {
        'e'
    } else {
        'f'
    }
}

/// The numeric value of a hex digit in either case, or 16 for any other
/// character.
pub open spec fn spec_hex_value(c: char) -> u8 {
    if c == '0' {
        0
    } else if c == '1' {
        1
    } else if c == '2' {
        2
    } else if c == '3' {
        3
    } else if c == '4' {
        4
    } else if c == '5' {
        5
    } else if c == '6' {
        6
    } else if c == '7' {
        7
    } else if c == '8' {
        8
    } else if c == '9' {
        9
    } else if c == 'a' || c == 'A' {
        10
    } else if c == 'b' || c == 'B' {
        11
    } else if c == 'c' || c == 'C' {
        12
    } else if c == 'd' || c == 'D' {
        13
    } else if c == 'e' || c == 'E' {
        14
    } else if c == 'f' || c == 'F' {
        15
    } else {
        16
    }
}

/// Whether a character is an ASCII hex digit, in either case.
pub open spec fn spec_is_hex_digit(c: char) -> bool {
    spec_hex_value(c) < 16
}

/// The lowercase hex encoding of a byte sequence: for each byte, the digit of
/// its high nibble and then the digit of its low one.
pub open spec fn spec_hex_encoding(bytes: Seq<u8>) -> Seq<char> {
    Seq::new(
        bytes.len() * 2,
        |i: int|
            if i % 2 == 0 {
                spec_hex_digit(bytes[i / 2] / 16)
            } else {
                spec_hex_digit(bytes[i / 2] % 16)
            },
    )
}

/// The bytes denoted by an even-length sequence of hex digits, pairing the
/// digits most significant first.
pub open spec fn spec_hex_decoding(s: Seq<char>) -> Seq<u8> {
    Seq::new(
        s.len() / 2,
        |i: int| (spec_hex_value(s[2 * i]) * 16 + spec_hex_value(s[2 * i + 1])) as u8,
    )
}

/// Law: a hex digit denotes the value it encodes.
pub proof fn lemma_hex_digit_value(n: u8)
    requires
        n < 16,
    ensures
        spec_hex_value(spec_hex_digit(n)) == n,
{
}

/// Law: decoding the lowercase hex encoding of any byte sequence yields the
/// original bytes, and the encoding is twice as long as they are.
pub proof fn lemma_hex_roundtrip(bytes: Seq<u8>)
    ensures
        spec_hex_encoding(bytes).len() == bytes.len() * 2,
        spec_hex_decoding(spec_hex_encoding(bytes)) == bytes,
{
    let encoded = spec_hex_encoding(bytes);
    assert forall|i: int| 0 <= i < bytes.len() implies spec_hex_decoding(encoded)[i]
        == bytes[i] by {
        lemma_hex_digit_value(bytes[i] / 16);
        lemma_hex_digit_value(bytes[i] % 16);
        assert(bytes[i] / 16 * 16 + bytes[i] % 16 == bytes[i]) by (nonlinear_arith);
    }
    assert(spec_hex_decoding(spec_hex_encoding(bytes)) =~= bytes);
}

/// Law: every character of a hex encoding is a hex digit and the encoding has
/// even length, so an encoding is always decodable.
pub proof fn lemma_hex_encoding_is_hex(bytes: Seq<u8>)
    ensures
        spec_hex_encoding(bytes).len() % 2 == 0,
        forall|i: int|
            0 <= i < spec_hex_encoding(bytes).len() ==> spec_is_hex_digit(
                #[trigger] spec_hex_encoding(bytes)[i],
            ),
{
    let encoded = spec_hex_encoding(bytes);
    assert forall|i: int| 0 <= i < encoded.len() implies spec_is_hex_digit(
        #[trigger] encoded[i],
    ) by {
        lemma_hex_digit_value(bytes[i / 2] / 16);
        lemma_hex_digit_value(bytes[i / 2] % 16);
    }
}

/// Relies on `hex::encode`: lowercase hex, two digits per byte, high nibble
/// first, in input order.
#[verifier::external_body]
pub(crate) fn hex_encode(bytes: &[u8]) -> (r: String)
    ensures
        r@ == spec_hex_encoding(bytes@),
{
    hex::encode(bytes)
}

/// Relies on `hex::decode`: succeeds exactly on even-length strings of hex
/// digits in either case, pairing the digits into bytes, high nibble first.
#[verifier::external_body]
pub(crate) fn hex_decode(s: &str) -> (r: Option<Vec<u8>>)
    ensures
        r is Some <==> (s@.len() % 2 == 0 && forall|i: int|
            0 <= i < s@.len() ==> spec_is_hex_digit(s@[i])),
        r matches Some(v) ==> v@ == spec_hex_decoding(s@),
{
    match hex::decode(s) {
        Ok(v) => Some(v),
        Err(_) => None,
    }
}

} // verus!
