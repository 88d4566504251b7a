//! Byte strings as they travel in JSON: `0x` and then two hexadecimal digits
//! for each byte.

use crate::codec::{
    as_chars, as_codes, hex_decode, hex_encode, hex_of, is_digit, is_hex, lemma_hex_unhex,
    lemma_unhex_hex, lower, unhex,
};
use crate::error::Error;
use crate::cell::{CellOutput, CellOutputView};
use vstd::prelude::*;
use vstd::slice::slice_subrange;
use vstd::string::*;

verus! {

/// What a reader is told of text that is no byte string.
pub const MALFORMED_HEX: &'static str = "expected a 0x-prefixed hex encoded string";

/// The wire text of `data`: `0x`, then its lowercase hexadecimal digits.
pub open spec fn wire_text(data: Seq<u8>) -> Seq<char> {
    seq!['0', 'x'] + as_chars(hex_of(data))
}

/// `c` is a hexadecimal digit of either case.
pub open spec fn is_hex_char(c: char) -> bool {
    c <= '\u{7f}' && is_digit(c as u8)
}

/// `text` is `0x` followed by hexadecimal digits only.
pub open spec fn has_wire_form(text: Seq<char>) -> bool {
    &&& text.len() >= 2
    &&& text[0] == '0'
    &&& text[1] == 'x'
    &&& forall|i: int| 2 <= i < text.len() ==> is_hex_char(#[trigger] text[i])
}

/// `text` is the wire text of some byte string: it has the wire form, and
/// its digits come in pairs.
pub open spec fn is_wire_text(text: Seq<char>) -> bool {
    has_wire_form(text) && text.len() % 2 == 0
}

/// The bytes that the wire text `text` stands for.
pub open spec fn wire_data(text: Seq<char>) -> Seq<u8> {
    unhex(as_codes(text.subrange(2, text.len() as int)))
}

/// `c` with a capital ASCII letter made small.
pub open spec fn lower_char(c: char) -> char {
    if 'A' <= c <= 'Z' {
        (c as u8 + 32) as char
    } else {
        c
    }
}

/// `text` with every capital ASCII letter made small.
pub open spec fn lowercased(text: Seq<char>) -> Seq<char> {
    text.map_values(|c: char| lower_char(c))
}

proof fn lemma_char_is_not_negative(c: char)
    ensures
        '\0' <= c,
{
}

/// Writes `data` as wire text.
pub fn serialize(data: &[u8]) -> (text: String)
    ensures
        text@ == wire_text(data@),
{
    proof {
        reveal_strlit("0x");
    }
    let mut text = String::from_str("0x");
    let digits = hex_encode(data);
    text.append(digits.as_str());
    assert(text@ =~= wire_text(data@));
    text
}

/// Reads wire text. Text that is not the wire text of a byte string is
/// refused as malformed.
pub fn deserialize(text: &str) -> (r: Result<Vec<u8>, Error>)
    ensures
        r is Ok <==> is_wire_text(text@),
        r matches Ok(data) ==> data@ == wire_data(text@),
        r matches Err(e) ==> e == Error::Encoding(MALFORMED_HEX),
{
    broadcast use vstd::string::is_ascii_spec_bytes;

    if !text.is_ascii() {
        proof {
            if is_wire_text(text@) {
                assert forall|i: int| 0 <= i < text@.len() implies '\0' <= #[trigger] text@[i]
                    <= '\u{7f}' by {
                    if i >= 2 {
                        assert(is_hex_char(text@[i]));
                        lemma_char_is_not_negative(text@[i]);
                    } else if i == 0 {
                        assert(text@[0] == '0');
                    } else {
                        assert(text@[1] == 'x');
                    }
                }
                assert(vstd::utf8::is_ascii_chars(text@));
            }
        }
        return Err(Error::Encoding(MALFORMED_HEX));
    }
    let bytes = text.as_bytes();
    assert(bytes@ =~= as_codes(text@));
    let n = bytes.len();
    if n < 2 || bytes[0] != 48 || bytes[1] != 120 {
        return Err(Error::Encoding(MALFORMED_HEX));
    }
    let digits = slice_subrange(bytes, 2, n);
    assert(digits@ =~= as_codes(text@.subrange(2, text@.len() as int)));
    proof {
        if is_hex(digits@) {
            assert forall|i: int| 2 <= i < text@.len() implies is_hex_char(
                #[trigger] text@[i],
            ) by {
                assert(is_digit(digits@[i - 2]));
            }
        }
        if is_wire_text(text@) {
            assert forall|i: int| 0 <= i < digits@.len() implies is_digit(
                #[trigger] digits@[i],
            ) by {
                assert(is_hex_char(text@[i + 2]));
            }
        }
    }
    match hex_decode(digits) {
        Some(data) => Ok(data),
        None => Err(Error::Encoding(MALFORMED_HEX)),
    }
}

/// Reading what `serialize` wrote gives the bytes back.
pub proof fn law_bytes_survive_the_wire(data: Seq<u8>)
    ensures
        is_wire_text(wire_text(data)),
        wire_data(wire_text(data)) == data,
{
    lemma_unhex_hex(data);
    let codes = hex_of(data);
    let text = wire_text(data);
    assert forall|i: int| 2 <= i < text.len() implies is_hex_char(#[trigger] text[i]) by {
        assert(text[i] == codes[i - 2] as char);
        assert(is_digit(codes[i - 2]));
    }
    let tail = text.subrange(2, text.len() as int);
    assert forall|i: int| 0 <= i < codes.len() implies as_codes(tail)[i] == codes[i] by {
        assert(tail[i] == codes[i] as char);
        assert(is_digit(codes[i]));
    }
    assert(as_codes(tail) =~= codes);
}

/// Writing what `deserialize` read gives the text back with its capital
/// letters made small, for text whose digits come in pairs.
pub proof fn law_text_survives_in_lowercase(text: Seq<char>)
    requires
        has_wire_form(text),
        text.len() % 2 == 0,
    ensures
        wire_text(wire_data(text)) == lowercased(text),
{
    let codes = as_codes(text.subrange(2, text.len() as int));
    assert forall|i: int| 0 <= i < codes.len() implies is_digit(#[trigger] codes[i]) by {
        assert(is_hex_char(text[i + 2]));
    }
    lemma_hex_unhex(codes);
    let again = wire_text(wire_data(text));
    let small = lowercased(text);
    assert(again.len() == small.len());
    assert forall|i: int| 0 <= i < again.len() implies again[i] == small[i] by {
        if i >= 2 {
            assert(is_hex_char(text[i]));
            assert(codes[i - 2] == text[i] as u8);
            assert(hex_of(unhex(codes))[i - 2] == lower(codes[i - 2]));
        }
    }
    assert(again =~= small);
}

/// A byte string that travels in JSON as wire text.
#[derive(Clone, Debug)]
pub struct Hex {
    pub hex: Vec<u8>,
}

impl View for Hex {
    type V = Seq<u8>;

    open spec fn view(&self) -> Seq<u8> {
        self.hex@
    }
}

impl Hex {
    /// Wraps raw bytes.
    pub fn new(hex: Vec<u8>) -> (out: Hex)
        ensures
            out@ == hex@,
    {
        Hex { hex }
    }

    /// The wire text of the bytes.
    pub fn to_string(&self) -> (text: String)
        ensures
            text@ == wire_text(self@),
    {
        serialize(self.hex.as_slice())
    }

    /// Reads wire text.
    pub fn from_string(text: &str) -> (r: Result<Hex, Error>)
        ensures
            r is Ok <==> is_wire_text(text@),
            r matches Ok(out) ==> out@ == wire_data(text@),
            r matches Err(e) ==> e == Error::Encoding(MALFORMED_HEX),
    {
        match deserialize(text) {
            Ok(hex) => Ok(Hex { hex }),
            Err(e) => Err(e),
        }
    }

    /// Reads text that is known to be wire text.
    pub fn parse(text: &str) -> (out: Hex)
        requires
            is_wire_text(text@),
        ensures
            out@ == wire_data(text@),
    {
        match deserialize(text) {
            Ok(hex) => Hex { hex },
            Err(_) => Hex { hex: Vec::new() },
        }
    }
}

/// A cell as a request hands it over: its output, and its data if it has any.
#[derive(Clone, Debug)]
pub struct CellOutputWithData {
    pub cell_output: CellOutput,
    pub hex_data: Option<Hex>,
}

/// What the handlers read of a `CellOutputWithData`.
pub struct CellView {
    pub cell_output: CellOutputView,
    pub hex_data: Option<Seq<u8>>,
}

impl View for CellOutputWithData {
    type V = CellView;

    open spec fn view(&self) -> CellView {
        CellView {
            cell_output: self.cell_output@,
            hex_data: match self.hex_data {
                Some(data) => Some(data@),
                None => None,
            },
        }
    }
}

} // verus!
