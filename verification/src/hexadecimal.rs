//! Bytes as hexadecimal text, the form in which keys are stored and
//! identities are announced.

use vstd::prelude::*;

verus! {

/// The lower-case digit that stands for `n`, for `n` below 16.
pub open spec fn hex_digit(n: int) -> char {
    if n < 10 {
        (48 + n) as char
    } else {
        (87 + n) as char
    }
}

/// The text of `data`: two lower-case digits for each byte, the high half
/// first.
pub open spec fn hex_encoded(data: Seq<u8>) -> Seq<char> {
    Seq::new(
        2 * data.len(),
        |i: int|
            if i % 2 == 0 {
                hex_digit(data[i / 2] as int / 16)
            } else {
                hex_digit(data[i / 2] as int % 16)
            },
    )
}

/// The number that the digit `c` stands for, in either case.
pub open spec fn hex_value(c: u8) -> Option<int> {
    if 48 <= c <= 57 {
        Some(c - 48)
    } else if 97 <= c <= 102 {
        Some(c - 87)
    } else if 65 <= c <= 70 {
        Some(c - 55)
    } else {
        None
    }
}

/// Whether `text` is an even number of hexadecimal digits.
pub open spec fn is_hex_text(text: Seq<u8>) -> bool {
    &&& text.len() % 2 == 0
    &&& forall|i: int| 0 <= i < text.len() ==> (#[trigger] hex_value(text[i])) is Some
}

/// The bytes that `text` stands for, if it is hexadecimal text.
pub open spec fn hex_decoded(text: Seq<u8>) -> Option<Seq<u8>> {
    if is_hex_text(text) {
        Some(
            Seq::new(
                text.len() / 2,
                |i: int|
                    (16 * hex_value(text[2 * i]).unwrap() + hex_value(
                        text[2 * i + 1],
                    ).unwrap()) as u8,
            ),
        )
    } else {
        None
    }
}

/// Calls `hex::encode`, which writes each byte as two lower-case digits,
/// the high half first. Trusted: the result is `hex_encoded` of the input.
#[verifier::external_body]
pub(crate) fn hex_encode(data: &[u8]) -> (text: String)
    ensures
        text@ == hex_encoded(data@),
{
    hex::encode(data)
}

/// Calls `hex::decode` on the UTF-8 bytes of `text`. It fails on an odd length and
/// on any byte that is not a digit of either case, and otherwise joins each
/// pair of digits into one byte. Trusted: the result is `hex_decoded` of the
/// bytes of the input.
#[verifier::external_body]
pub(crate) fn hex_decode(text: &str) -> (data: Option<Vec<u8>>)
    ensures
        match data {
            Some(bytes) => hex_decoded(vstd::utf8::encode_utf8(text@)) == Some(bytes@),
            None => hex_decoded(vstd::utf8::encode_utf8(text@)) is None,
        },
{
    hex::decode(text).ok()
}

/// Hexadecimal text is made of ASCII characters only.
pub proof fn lemma_hex_encoded_is_ascii(data: Seq<u8>)
    ensures
        vstd::utf8::is_ascii_chars(hex_encoded(data)),
        hex_encoded(data).len() == 2 * data.len(),
{
}

/// Decoding the text of `data` gives `data` back.
pub proof fn law_hex_round_trip(data: Seq<u8>)
    ensures
        hex_decoded(vstd::utf8::encode_utf8(hex_encoded(data))) == Some(data),
{
    let text = hex_encoded(data);
    lemma_hex_encoded_is_ascii(data);
    vstd::utf8::is_ascii_chars_encode_utf8(text);
    let bytes = vstd::utf8::encode_utf8(text);
    assert(bytes.len() == 2 * data.len());
    assert forall|i: int| 0 <= i < bytes.len() implies (#[trigger] hex_value(bytes[i])) is Some by {
        assert(bytes[i] == text[i] as u8);
    }
    assert(is_hex_text(bytes));
    let back = hex_decoded(bytes).unwrap();
    assert forall|k: int| 0 <= k < data.len() implies back[k] == data[k] by {
        assert(bytes[2 * k] == text[2 * k] as u8);
        assert(bytes[2 * k + 1] == text[2 * k + 1] as u8);
    }
    assert(back =~= data);
}

} // verus!
