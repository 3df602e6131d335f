//! Hexadecimal text: what it is, the calls that write and read it, and the
//! proof that reading undoes writing.

use vstd::prelude::*;
use vstd::utf8::{encode_utf8, is_ascii_chars, is_ascii_chars_encode_utf8};

verus! {

/// The failure to read hexadecimal text.
#[verifier::external_type_specification]
#[verifier::external_body]
pub struct ExFromHexError(hex::FromHexError);

/// The ASCII code of the lower-case digit for a value below sixteen.
pub open spec fn hex_digit(nibble: int) -> u8 {
    if nibble < 10 {
        (48 + nibble) as u8
    } else {
        (87 + nibble) as u8
    }
}

/// The ASCII codes of the hexadecimal form of `data`: two lower-case digits
/// for each byte, the high half first.
pub open spec fn hex_bytes(data: Seq<u8>) -> Seq<u8> {
    Seq::new(
        2 * data.len(),
        |i: int|
            hex_digit(
                if i % 2 == 0 {
                    data[i / 2] as int / 16
                } else {
                    data[i / 2] as int % 16
                },
            ),
    )
}

/// The hexadecimal form of `data` as characters.
pub open spec fn hex_text(data: Seq<u8>) -> Seq<char> {
    Seq::new(2 * data.len(), |i: int| hex_bytes(data)[i] as char)
}

/// The value of a hexadecimal digit given by its ASCII code, in either
/// case; `None` for any other byte.
pub open spec fn hex_digit_value(code: u8) -> Option<int> {
    if 48 <= code <= 57 {
        Some(code - 48)
    } else if 97 <= code <= 102 {
        Some(code - 87)
    } else if 65 <= code <= 70 {
        Some(code - 55)
    } else {
        None
    }
}

/// Text that can be read as hexadecimal: an even number of digits.
pub open spec fn is_hex(text: Seq<u8>) -> bool {
    &&& text.len() % 2 == 0
    &&& forall|i: int| 0 <= i < text.len() ==> (#[trigger] hex_digit_value(text[i])) is Some
}

/// The bytes that hexadecimal `text` stands for.
pub open spec fn unhex(text: Seq<u8>) -> Seq<u8> {
    Seq::new(
        text.len() / 2,
        |i: int|
            (16 * hex_digit_value(text[2 * i]).unwrap() + hex_digit_value(
                text[2 * i + 1],
            ).unwrap()) as u8,
    )
}

/// Writes bytes as hexadecimal with `hex::encode`.
///
/// Trusted: the crate writes two lower-case digits for each byte, the high
/// half first.
#[verifier::external_body]
pub(crate) fn hex_encode(data: &[u8]) -> (text: String)
    ensures
        text@ == hex_text(data@),
{
    hex::encode(data)
}

/// Reads hexadecimal with `hex::decode`.
///
/// Trusted: the crate accepts an even number of digits of either case and
/// nothing else, and returns one byte for each pair, the high half first.
#[verifier::external_body]
pub(crate) fn hex_decode(text: &[u8]) -> (r: Result<Vec<u8>, hex::FromHexError>)
    ensures
        r is Ok <==> is_hex(text@),
        r matches Ok(data) ==> data@ == unhex(text@),
{
    hex::decode(text)
}

/// The UTF-8 bytes of written hexadecimal are its ASCII codes.
pub proof fn lemma_hex_text_bytes(data: Seq<u8>)
    ensures
        is_ascii_chars(hex_text(data)),
        encode_utf8(hex_text(data)) == hex_bytes(data),
{
    let text = hex_text(data);
    assert forall|i: int| 0 <= i < text.len() implies '\0' <= #[trigger] text[i] <= '\u{7f}' by {
        let code = hex_bytes(data)[i];
        assert(48 <= code <= 102);
    }
    is_ascii_chars_encode_utf8(text);
    assert forall|i: int| 0 <= i < text.len() implies encode_utf8(text)[i] == hex_bytes(
        data,
    )[i] by {
        let code = hex_bytes(data)[i];
        assert(48 <= code <= 102);
        assert(text[i] as u8 == code);
    }
    assert(encode_utf8(text) =~= hex_bytes(data));
}

/// Reading written hexadecimal gives the bytes back.
pub proof fn lemma_unhex_hex(data: Seq<u8>)
    ensures
        is_hex(hex_bytes(data)),
        unhex(hex_bytes(data)) == data,
{
    let text = hex_bytes(data);
    assert forall|i: int| 0 <= i < text.len() implies (#[trigger] hex_digit_value(
        text[i],
    )) is Some by {
        let byte = data[i / 2] as int;
        assert(0 <= byte / 16 < 16 && 0 <= byte % 16 < 16);
    }
    assert forall|i: int| 0 <= i < data.len() implies unhex(text)[i] == data[i] by {
        let byte = data[i] as int;
        assert(0 <= byte / 16 < 16 && 0 <= byte % 16 < 16);
        assert((2 * i) / 2 == i && (2 * i) % 2 == 0);
        assert((2 * i + 1) / 2 == i && (2 * i + 1) % 2 == 1);
        assert(hex_digit_value(text[2 * i]) == Some(byte / 16));
        assert(hex_digit_value(text[2 * i + 1]) == Some(byte % 16));
        assert(16 * (byte / 16) + byte % 16 == byte);
    }
    assert(unhex(text) =~= data);
}

} // verus!
