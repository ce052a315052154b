//! Hexadecimal text of bytes, through the `hex` crate.

use vstd::prelude::*;

verus! {

pub open spec fn is_hex_digit(c: char) -> bool {
    ('0' <= c && c <= '9') || ('a' <= c && c <= 'f') || ('A' <= c && c <= 'F')
}

/// A text that `hex::decode` accepts: an even number of characters, all
/// ASCII hexadecimal digits (either case).
pub open spec fn is_hex_text(s: Seq<char>) -> bool {
    &&& s.len() % 2 == 0
    &&& forall|i: int| 0 <= i < s.len() ==> is_hex_digit(#[trigger] s[i])
}

/// Value of a hexadecimal digit.
pub open spec fn hex_value(c: char) -> nat {
    if '0' <= c && c <= '9' {
        ((c as u32) - ('0' as u32)) as nat
    } else if 'a' <= c && c <= 'f' {
        ((c as u32) - ('a' as u32) + 10) as nat
    } else {
        ((c as u32) - ('A' as u32) + 10) as nat
    }
}

/// The bytes a hexadecimal text stands for, two digits a byte, the high
/// nibble first.
pub open spec fn hex_bytes(s: Seq<char>) -> Seq<u8> {
    Seq::new(s.len() / 2, |i: int| (hex_value(s[2 * i]) * 16 + hex_value(s[2 * i + 1])) as u8)
}

/// The lower-case hexadecimal digit of a value below 16.
pub open spec fn hex_digit_char(v: nat) -> char {
    if v < 10 {
        (('0' as u32) + (v as u32)) as char
    } else {
        (('a' as u32) + (v as u32) - 10) as char
    }
}

/// Lower-case hexadecimal text of bytes, two digits a byte, the high nibble
/// first.
pub open spec fn hex_text(b: Seq<u8>) -> Seq<char> {
    Seq::new(2 * b.len(), |i: int|
        if i % 2 == 0 { hex_digit_char((b[i / 2] / 16) as nat) } else { hex_digit_char((b[i / 2] % 16) as nat) })
}

proof fn lemma_digit_round_trip(v: nat)
    requires
        v < 16,
    ensures
        is_hex_digit(hex_digit_char(v)),
        hex_value(hex_digit_char(v)) == v,
{
}

/// Hexadecimal text decodes to the bytes it was made from, and is always
/// accepted: decoding undoes encoding.
pub proof fn lemma_hex_round_trip(b: Seq<u8>)
    ensures
        is_hex_text(hex_text(b)),
        hex_bytes(hex_text(b)) == b,
{
    let t = hex_text(b);
    assert forall|i: int| 0 <= i < t.len() implies is_hex_digit(#[trigger] t[i]) by {
        if i % 2 == 0 {
            lemma_digit_round_trip((b[i / 2] / 16) as nat);
        } else {
            lemma_digit_round_trip((b[i / 2] % 16) as nat);
        }
    }
    assert forall|i: int| 0 <= i < b.len() implies #[trigger] hex_bytes(t)[i] == b[i] by {
        let hi = (b[i] / 16) as nat;
        let lo = (b[i] % 16) as nat;
        assert(t[2 * i] == hex_digit_char(hi));
        assert(t[2 * i + 1] == hex_digit_char(lo));
        lemma_digit_round_trip(hi);
        lemma_digit_round_trip(lo);
        assert(hi * 16 + lo == b[i]);
    }
    assert(hex_bytes(t) =~= b);
}

/// Calls `hex::decode`. Its source (`FromHex for Vec<u8>`) fails on an odd
/// number of bytes and on any byte that is not an ASCII hexadecimal digit;
/// otherwise each pair of digits gives one byte, high nibble first.
#[verifier::external_body]
pub(crate) fn hex_decode(s: &str) -> (r: Option<Vec<u8>>)
    ensures
        r is Some <==> is_hex_text(s@),
        r matches Some(v) ==> v@ == hex_bytes(s@),
{
    hex::decode(s).ok()
}

/// Calls `hex::encode`, which writes each byte as two lower-case
/// hexadecimal digits, high nibble first (`HEX_CHARS_LOWER`).
#[verifier::external_body]
pub(crate) fn hex_encode(b: &[u8]) -> (r: String)
    ensures
        r@ == hex_text(b@),
{
    hex::encode(b)
}

} // verus!
