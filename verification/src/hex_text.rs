//! Hex text and the bytes it stands for, with the two calls into the `hex`
//! crate that the classifier makes.

use hex::FromHex;
use vstd::prelude::*;

verus! {

/// One of `0-9`, `a-f`, `A-F`.
pub open spec fn is_hex_digit(c: char) -> bool {
    ('0' <= c && c <= '9') || ('a' <= c && c <= 'f') || ('A' <= c && c <= 'F')
}

/// The number a hex digit stands for; 0 for any other character.
pub open spec fn hex_digit_value(c: char) -> int {
    if '0' <= c && c <= '9' {
        c as int - '0' as int
    } else if 'a' <= c && c <= 'f' {
        c as int - 'a' as int + 10
    } else if 'A' <= c && c <= 'F' {
        c as int - 'A' as int + 10
    } else {
        0
    }
}

/// Text that decodes: an even number of characters, each a hex digit.
pub open spec fn is_hex_text(text: Seq<char>) -> bool {
    text.len() % 2 == 0 && forall|i: int| 0 <= i < text.len() ==> is_hex_digit(#[trigger] text[i])
}

/// The bytes that hex text stands for: one byte for each pair of digits,
/// the first digit of a pair being the high half.
pub open spec fn hex_decode(text: Seq<char>) -> Seq<u8> {
    Seq::new(
        text.len() / 2,
        |i: int| (16 * hex_digit_value(text[2 * i]) + hex_digit_value(text[2 * i + 1])) as u8,
    )
}

/// The lower-case hex digit for a number below 16.
pub open spec fn lower_hex_digit(n: int) -> char {
    seq!['0', '1', '2', '3', '4', '5', '6', '7', '8', '9', 'a', 'b', 'c', 'd', 'e', 'f'][n]
}

/// The lower-case hex text of a byte sequence: two digits for each byte,
/// high half first.
pub open spec fn hex_encode(bytes: Seq<u8>) -> Seq<char> {
    Seq::new(
        2 * bytes.len(),
        |i: int|
            if i % 2 == 0 {
                lower_hex_digit(bytes[i / 2] as int / 16)
            } else {
                lower_hex_digit(bytes[i / 2] as int % 16)
            },
    )
}

/// The error of the `hex` crate's decoder, carried through unread.
#[verifier::external_type_specification]
#[verifier::external_body]
pub struct ExFromHexError(hex::FromHexError);

/// Calls `<Vec<u8> as hex::FromHex>::from_hex` on the text.
///
/// Trusted: the call succeeds exactly on text of even length made of hex
/// digits of either case, and then returns the byte that each pair of
/// digits stands for, in order.
#[verifier::external_body]
pub(crate) fn decode_hex(text: &str) -> (r: Result<Vec<u8>, hex::FromHexError>)
    ensures
        r is Ok <==> is_hex_text(text@),
        r matches Ok(bytes) ==> bytes@ == hex_decode(text@),
{
    Vec::from_hex(text)
}

/// Calls `hex::encode` on the bytes.
///
/// Trusted: the result holds two lower-case hex digits for each byte, in
/// order, the high half of a byte first.
#[verifier::external_body]
pub(crate) fn encode_hex(bytes: &[u8]) -> (r: String)
    ensures
        r@ == hex_encode(bytes@),
{
    hex::encode(bytes)
}

/// Every character of encoded bytes is a hex digit, and there are two for
/// each byte: what the encoder writes, the decoder accepts.
pub proof fn lemma_encode_is_hex_text(bytes: Seq<u8>)
    ensures
        hex_encode(bytes).len() == 2 * bytes.len(),
        is_hex_text(hex_encode(bytes)),
{
    assert forall|i: int| 0 <= i < hex_encode(bytes).len() implies is_hex_digit(
        #[trigger] hex_encode(bytes)[i],
    ) by {
        let b = bytes[i / 2] as int;
        lemma_lower_hex_digit(b / 16);
        lemma_lower_hex_digit(b % 16);
    }
}

/// A lower-case digit is a hex digit and stands for the number it was
/// written for.
pub proof fn lemma_lower_hex_digit(n: int)
    requires
        0 <= n < 16,
    ensures
        is_hex_digit(lower_hex_digit(n)),
        hex_digit_value(lower_hex_digit(n)) == n,
{
}

/// Decoding what was encoded gives the bytes back.
pub proof fn lemma_decode_encode(bytes: Seq<u8>)
    ensures
        hex_decode(hex_encode(bytes)) == bytes,
{
    let text = hex_encode(bytes);
    assert forall|i: int| 0 <= i < bytes.len() implies hex_decode(text)[i] == bytes[i] by {
        let b = bytes[i] as int;
        lemma_lower_hex_digit(b / 16);
        lemma_lower_hex_digit(b % 16);
        assert(text[2 * i] == lower_hex_digit(b / 16));
        assert(text[2 * i + 1] == lower_hex_digit(b % 16));
    }
    assert(hex_decode(text) =~= bytes);
}

} // verus!
