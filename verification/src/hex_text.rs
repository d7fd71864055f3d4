//! Lowercase hexadecimal text for stored bytes.
//!
//! The encoding and decoding themselves are done by the `hex` crate; this
//! module states what they compute and proves that decoding undoes encoding.

use vstd::prelude::*;

verus! {

/// The error that `hex::decode` reports. Nothing is read from it here: any
/// such error means that the text was refused.
#[verifier::external_type_specification]
#[verifier::external_body]
pub struct ExFromHexError(hex::FromHexError);

/// The lowercase digit that stands for `nibble`, for `0 <= nibble < 16`.
pub open spec fn hex_digit(nibble: int) -> char {
    if nibble < 10 {
        ((nibble + 48) as u8) as char
    } else {
        ((nibble + 87) as u8) as char
    }
}

/// Whether `c` is one of `0-9`, `a-f`, `A-F`.
pub open spec fn is_hex_digit(c: char) -> bool {
    ('0' <= c && c <= '9') || ('a' <= c && c <= 'f') || ('A' <= c && c <= 'F')
}

/// The number a hexadecimal digit stands for, in either case.
pub open spec fn digit_value(c: char) -> int {
    if '0' <= c && c <= '9' {
        c as int - 48
    } else if 'a' <= c && c <= 'f' {
        c as int - 87
    } else {
        c as int - 55
    }
}

/// Two lowercase digits for every byte, high nibble first.
pub open spec fn hex_encoding(bytes: Seq<u8>) -> Seq<char> {
    Seq::new(
        2 * bytes.len(),
        |i: int|
            if i % 2 == 0 {
                hex_digit(bytes[i / 2] as int / 16)
            } else {
                hex_digit(bytes[i / 2] as int % 16)
            },
    )
}

/// Whether `text` is an even number of hexadecimal digits and nothing else.
pub open spec fn is_hex_text(text: Seq<char>) -> bool {
    &&& text.len() % 2 == 0
    &&& forall|i: int| 0 <= i < text.len() ==> is_hex_digit(#[trigger] text[i])
}

/// One byte for every two digits of `text`, high nibble first.
pub open spec fn hex_decoding(text: Seq<char>) -> Seq<u8> {
    Seq::new(
        text.len() / 2,
        |i: int| (16 * digit_value(text[2 * i]) + digit_value(text[2 * i + 1])) as u8,
    )
}

/// Every nibble is written as a hexadecimal digit that reads back as that nibble.
pub proof fn lemma_digit_round_trip(nibble: int)
    requires
        0 <= nibble < 16,
    ensures
        is_hex_digit(hex_digit(nibble)),
        digit_value(hex_digit(nibble)) == nibble,
{
}

/// Encoded bytes are always well-formed hexadecimal text, and decoding them
/// gives the bytes back.
pub proof fn lemma_decoding_inverts_encoding(bytes: Seq<u8>)
    ensures
        is_hex_text(hex_encoding(bytes)),
        hex_decoding(hex_encoding(bytes)) == bytes,
{
    let text = hex_encoding(bytes);
    assert forall|i: int| 0 <= i < text.len() implies is_hex_digit(#[trigger] text[i]) by {
        lemma_digit_round_trip(bytes[i / 2] as int / 16);
        lemma_digit_round_trip(bytes[i / 2] as int % 16);
    }
    assert forall|k: int| 0 <= k < bytes.len() implies hex_decoding(text)[k] == bytes[k] by {
        lemma_digit_round_trip(bytes[k] as int / 16);
        lemma_digit_round_trip(bytes[k] as int % 16);
        assert(text[2 * k] == hex_digit(bytes[k] as int / 16));
        assert(text[2 * k + 1] == hex_digit(bytes[k] as int % 16));
    }
    assert(hex_decoding(text) =~= bytes);
}

/// Calls `hex::encode`.
///
/// Trusted: for each byte the crate emits the digit for its high four bits
/// and then the digit for its low four bits, both taken from
/// `0123456789abcdef`, which is what [`hex_encoding`] says.
#[verifier::external_body]
pub(crate) fn encode(bytes: &[u8]) -> (text: String)
    ensures
        text@ == hex_encoding(bytes@),
{
    hex::encode(bytes)
}

/// Calls `hex::decode`.
///
/// Trusted: the crate refuses input with an odd number of bytes and input
/// with a byte outside `0-9`, `a-f`, `A-F`, and otherwise returns, for each
/// pair of digits, sixteen times the first digit's value plus the second's.
/// A character outside ASCII is encoded in bytes that are no hexadecimal
/// digits, so text holding one is refused whatever its length; for ASCII text
/// bytes and characters coincide. That is [`is_hex_text`] and
/// [`hex_decoding`].
#[verifier::external_body]
pub(crate) fn decode(text: &str) -> (r: Result<Vec<u8>, hex::FromHexError>)
    ensures
        r is Ok <==> is_hex_text(text@),
        r is Ok ==> r->Ok_0@ == hex_decoding(text@),
{
    hex::decode(text)
}

} // verus!
