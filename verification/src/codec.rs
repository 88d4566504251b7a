//! Hexadecimal text: two digits for each byte, the high half first.
//!
//! The digits are written and read by the `hex` crate. This module says what
//! that crate gives, as functions on sequences of ASCII codes, and proves that
//! reading undoes writing.

use vstd::prelude::*;

verus! {

/// The ASCII code of the lowercase digit for `n`, a number below sixteen.
pub open spec fn digit(n: int) -> u8 {
    if n < 10 {
        (48 + n) as u8
    } else {
        (87 + n) as u8
    }
}

/// What the ASCII code `c` is worth as a hexadecimal digit of either case, or
/// -1 where it is none.
pub open spec fn digit_value(c: u8) -> int {
    if 48 <= c <= 57 {
        c - 48
    } else if 97 <= c <= 102 {
        c - 87
    } else if 65 <= c <= 70 {
        c - 55
    } else {
        -1
    }
}

/// `c` is the ASCII code of a hexadecimal digit.
pub open spec fn is_digit(c: u8) -> bool {
    digit_value(c) >= 0
}

/// The ASCII code `c` with a capital letter made small.
pub open spec fn lower(c: u8) -> u8 {
    if 65 <= c <= 90 {
        (c + 32) as u8
    } else {
        c
    }
}

/// `data` in lowercase hexadecimal, as ASCII codes.
pub open spec fn hex_of(data: Seq<u8>) -> Seq<u8> {
    Seq::new(
        2 * data.len(),
        |i: int|
            if i % 2 == 0 {
                digit(data[i / 2] as int / 16)
            } else {
                digit(data[i / 2] as int % 16)
            },
    )
}

/// `text` is an even number of hexadecimal digits.
pub open spec fn is_hex(text: Seq<u8>) -> bool {
    &&& text.len() % 2 == 0
    &&& forall|i: int| 0 <= i < text.len() ==> is_digit(#[trigger] text[i])
}

/// The bytes that the digits of `text` stand for.
pub open spec fn unhex(text: Seq<u8>) -> Seq<u8> {
    Seq::new(
        text.len() / 2,
        |i: int| (16 * digit_value(text[2 * i]) + digit_value(text[2 * i + 1])) as u8,
    )
}

/// ASCII codes as characters.
pub open spec fn as_chars(codes: Seq<u8>) -> Seq<char> {
    Seq::new(codes.len(), |i: int| codes[i] as char)
}

/// Characters as ASCII codes.
pub open spec fn as_codes(chars: Seq<char>) -> Seq<u8> {
    Seq::new(chars.len(), |i: int| chars[i] as u8)
}

/// Writes `data` in lowercase hexadecimal.
///
/// Calls `hex::encode`. Trusted: that the text holds, for each byte in turn,
/// the digit of its high half and then the digit of its low half, from
/// `0123456789abcdef`.
#[verifier::external_body]
pub(crate) fn hex_encode(data: &[u8]) -> (text: String)
    ensures
        text@ == as_chars(hex_of(data@)),
{
    hex::encode(data)
}

/// Reads hexadecimal digits of either case.
///
/// Calls `hex::decode`. Trusted: that it succeeds exactly on an even number
/// of digits, and then gives one byte for each pair, sixteen times the first
/// digit plus the second.
#[verifier::external_body]
pub(crate) fn hex_decode(text: &[u8]) -> (r: Option<Vec<u8>>)
    ensures
        r is Some <==> is_hex(text@),
        r is Some ==> r->0@ == unhex(text@),
{
    hex::decode(text).ok()
}

/// Reading what was written gives the bytes back.
pub proof fn lemma_unhex_hex(data: Seq<u8>)
    ensures
        is_hex(hex_of(data)),
        unhex(hex_of(data)) == data,
{
    let text = hex_of(data);
    assert forall|i: int| 0 <= i < text.len() implies is_digit(#[trigger] text[i]) by {
        let half = if i % 2 == 0 {
            data[i / 2] as int / 16
        } else {
            data[i / 2] as int % 16
        };
        assert(0 <= half < 16);
        assert(text[i] == digit(half));
    }
    assert forall|i: int| 0 <= i < data.len() implies unhex(text)[i] == data[i] by {
        let high = data[i] as int / 16;
        let low = data[i] as int % 16;
        assert((2 * i) % 2 == 0);
        assert((2 * i) / 2 == i);
        assert((2 * i + 1) % 2 == 1);
        assert((2 * i + 1) / 2 == i);
        assert(text[2 * i] == digit(high));
        assert(text[2 * i + 1] == digit(low));
        assert(digit_value(digit(high)) == high);
        assert(digit_value(digit(low)) == low);
    }
    assert(unhex(text) =~= data);
}

/// Writing what was read gives the digits back, capitals made small.
pub proof fn lemma_hex_unhex(text: Seq<u8>)
    requires
        is_hex(text),
    ensures
        hex_of(unhex(text)) == text.map_values(|c: u8| lower(c)),
{
    let data = unhex(text);
    let again = hex_of(data);
    let small = text.map_values(|c: u8| lower(c));
    assert(again.len() == small.len());
    assert forall|i: int| 0 <= i < again.len() implies again[i] == small[i] by {
        let k = i / 2;
        assert(is_digit(text[2 * k]));
        assert(is_digit(text[2 * k + 1]));
        let high = digit_value(text[2 * k]);
        let low = digit_value(text[2 * k + 1]);
        assert(0 <= high < 16 && 0 <= low < 16);
        assert(data[k] as int == 16 * high + low);
        assert((16 * high + low) / 16 == high);
        assert((16 * high + low) % 16 == low);
        assert(is_digit(text[i]));
        assert(digit(digit_value(text[i])) == lower(text[i]));
        if i % 2 == 0 {
            assert(i == 2 * k);
        } else {
            assert(i == 2 * k + 1);
        }
    }
    assert(again =~= small);
}

/// Hexadecimal text is ASCII, and its characters stand for its codes.
pub proof fn lemma_hex_is_ascii(data: Seq<u8>)
    ensures
        vstd::utf8::is_ascii_chars(as_chars(hex_of(data))),
        as_codes(as_chars(hex_of(data))) == hex_of(data),
{
    let codes = hex_of(data);
    let chars = as_chars(codes);
    assert forall|i: int| 0 <= i < codes.len() implies 48 <= #[trigger] codes[i] <= 102 by {
        let half = if i % 2 == 0 {
            data[i / 2] as int / 16
        } else {
            data[i / 2] as int % 16
        };
        assert(0 <= half < 16);
        assert(codes[i] == digit(half));
    }
    assert forall|i: int| 0 <= i < chars.len() implies '\0' <= #[trigger] chars[i] <= '\u{7f}' by {
        assert(48 <= codes[i] <= 102);
    }
    assert forall|i: int| 0 <= i < chars.len() implies as_codes(chars)[i] == codes[i] by {
        assert(48 <= codes[i] <= 102);
    }
    assert(as_codes(chars) =~= codes);
}

} // verus!
