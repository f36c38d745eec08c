//! Hexadecimal encoding of byte strings, as the signed redirect tag uses
//! it: encoding is lowercase, two digits per byte, high nibble first;
//! decoding accepts both cases and exactly the even-length digit strings.

use vstd::prelude::*;

verus! {

/// A hexadecimal digit in either case.
pub open spec fn is_hex_digit(c: char) -> bool {
    ||| 48 <= (c as u32) <= 57
    ||| 65 <= (c as u32) <= 70
    ||| 97 <= (c as u32) <= 102
}

/// The lowercase digit for a nibble.
pub open spec fn hex_char_lower(v: u8) -> char {
    if v == 0 {
        '0'
    } else if v == 1 {
        '1'
    } else if v == 2 {
        '2'
    } else if v == 3 {
        '3'
    } else if v == 4 {
        '4'
    } else if v == 5 {
        '5'
    } else if v == 6 {
        '6'
    } else if v == 7 {
        '7'
    } else if v == 8 {
        '8'
    } else if v == 9 {
        '9'
    } else if v == 10 {
        'a'
    } else if v == 11 {
        'b'
    } else if v == 12 {
        'c'
    } else if v == 13 {
        'd'
    } else if v == 14 {
        'e'
    } else {
        'f'
    }
}

/// The nibble a digit stands for, in either case.
pub open spec fn hex_digit_value(c: char) -> u8 {
    if 48 <= (c as u32) <= 57 {
        ((c as u32) - 48) as u8
    } else if 65 <= (c as u32) <= 70 {
        ((c as u32) - 55) as u8
    } else if 97 <= (c as u32) <= 102 {
        ((c as u32) - 87) as u8
    } else {
        0
    }
}

/// The lowercase hex encoding of a byte string.
pub open spec fn hex_of(bytes: Seq<u8>) -> Seq<char>
    decreases bytes.len(),
{
    if bytes.len() == 0 {
        Seq::empty()
    } else {
        seq![hex_char_lower(bytes[0] / 16), hex_char_lower(bytes[0] % 16)] + hex_of(
            bytes.drop_first(),
        )
    }
}

/// Whether a string is decodable hex: an even number of digits.
pub open spec fn hex_digits_valid(s: Seq<char>) -> bool {
    &&& s.len() % 2 == 0
    &&& (forall|i: int| 0 <= i < s.len() ==> is_hex_digit(s[i]))
}

/// The bytes a decodable hex string stands for, high nibble first.
pub open spec fn hex_bytes(s: Seq<char>) -> Seq<u8>
    decreases s.len(),
{
    if s.len() < 2 {
        Seq::empty()
    } else {
        seq![(hex_digit_value(s[0]) * 16 + hex_digit_value(s[1])) as u8] + hex_bytes(s.skip(2))
    }
}

/// What decoding a string yields: the bytes, or nothing when the string is
/// not an even number of hex digits.
pub open spec fn hex_decode_of(s: Seq<char>) -> Option<Seq<u8>> {
    if hex_digits_valid(s) {
        Some(hex_bytes(s))
    } else {
        None
    }
}

/// Relies on hex::encode: two lowercase digits per byte, high nibble
/// first.
#[verifier::external_body]
pub fn hex_encode(bytes: &[u8]) -> (r: String)
    ensures
        r@ == hex_of(bytes@),
{
    hex::encode(bytes)
}

/// Relies on hex::decode: succeeds exactly on an even number of hex
/// digits of either case, pairing them high nibble first.
#[verifier::external_body]
pub fn hex_decode(s: &String) -> (r: Option<Vec<u8>>)
    ensures
        r is Some <==> hex_decode_of(s@) is Some,
        r matches Some(v) ==> Some(v@) == hex_decode_of(s@),
{
    match hex::decode(s.as_str()) {
        Ok(v) => Some(v),
        Err(_) => None,
    }
}

proof fn lemma_nibble(v: u8)
    requires
        v < 16,
    ensures
        is_hex_digit(hex_char_lower(v)),
        hex_digit_value(hex_char_lower(v)) == v,
{
}

/// Encoding then decoding gives the bytes back.
pub proof fn lemma_hex_round_trip(bytes: Seq<u8>)
    ensures
        hex_digits_valid(hex_of(bytes)),
        hex_decode_of(hex_of(bytes)) == Some(bytes),
        hex_of(bytes).len() == 2 * bytes.len(),
    decreases bytes.len(),
{
    if bytes.len() == 0 {
        assert(hex_bytes(hex_of(bytes)) =~= bytes);
    } else {
        let b = bytes[0];
        let s = hex_of(bytes);
        let tail = hex_of(bytes.drop_first());
        lemma_hex_round_trip(bytes.drop_first());
        lemma_nibble(b / 16);
        lemma_nibble(b % 16);
        assert(s =~= seq![hex_char_lower(b / 16), hex_char_lower(b % 16)] + tail);
        assert(s.skip(2) =~= tail);
        assert forall|i: int| 0 <= i < s.len() implies is_hex_digit(s[i]) by {
            if i >= 2 {
                assert(s[i] == tail[i - 2]);
            }
        }
        assert(hex_digit_value(s[0]) * 16 + hex_digit_value(s[1]) == b);
        assert(hex_bytes(s) =~= bytes);
    }
}

/// A digit mapped to lowercase; other characters stay as they are.
pub open spec fn lower_hex_char(c: char) -> char {
    if 65 <= (c as u32) <= 70 {
        hex_char_lower(hex_digit_value(c))
    } else {
        c
    }
}

/// A string mapped digit-wise to lowercase hex.
pub open spec fn lower_hex(s: Seq<char>) -> Seq<char> {
    s.map_values(|c: char| lower_hex_char(c))
}

proof fn lemma_digit_lower(c: char)
    requires
        is_hex_digit(c),
    ensures
        hex_digit_value(c) < 16,
        hex_char_lower(hex_digit_value(c)) == lower_hex_char(c),
{
}

/// Decoding pins the digits: any string that decodes to given bytes is
/// their canonical encoding, up to the case of its digits.
pub proof fn lemma_decode_pins_digits(s: Seq<char>, bytes: Seq<u8>)
    requires
        hex_decode_of(s) == Some(bytes),
    ensures
        s.len() == 2 * bytes.len(),
        lower_hex(s) == hex_of(bytes),
    decreases s.len(),
{
    if s.len() == 0 {
        assert(bytes =~= Seq::<u8>::empty());
        assert(lower_hex(s) =~= hex_of(bytes));
    } else {
        let v1 = hex_digit_value(s[0]);
        let v2 = hex_digit_value(s[1]);
        lemma_digit_lower(s[0]);
        lemma_digit_lower(s[1]);
        let b = (v1 * 16 + v2) as u8;
        assert(bytes =~= seq![b] + hex_bytes(s.skip(2)));
        assert(b / 16 == v1 && b % 16 == v2);
        let st = s.skip(2);
        assert(hex_digits_valid(st)) by {
            assert forall|i: int| 0 <= i < st.len() implies is_hex_digit(st[i]) by {
                assert(st[i] == s[i + 2]);
            }
        }
        let bt = hex_bytes(st);
        assert(bytes.drop_first() =~= bt);
        lemma_decode_pins_digits(st, bt);
        assert(hex_of(bytes) =~= seq![hex_char_lower(b / 16), hex_char_lower(b % 16)] + hex_of(
            bt,
        ));
        assert(lower_hex(s) =~= seq![lower_hex_char(s[0]), lower_hex_char(s[1])] + lower_hex(st));
        assert(lower_hex(s) =~= hex_of(bytes));
    }
}

} // verus!
