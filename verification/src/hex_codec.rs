//! Conversion between bytes and lower-case hex text.
//!
//! The text is modelled by its UTF-8 bytes, since that is what the decoder
//! reads: two digits make one byte, upper and lower case are both accepted,
//! and nothing else is.

use crate::error::FastCryptoError;
use vstd::prelude::*;
use vstd::utf8::{encode_utf8, is_ascii_chars, is_ascii_chars_encode_utf8};

verus! {

/// The ASCII code of the lower-case hex digit for a value below sixteen.
pub open spec fn hex_digit(value: int) -> u8 {
    if value < 10 {
        (48 + value) as u8
    } else {
        (87 + value) as u8
    }
}

/// The value of an ASCII hex digit, in either case; `None` for any other byte.
pub open spec fn hex_value(code: u8) -> Option<int> {
    if 48 <= code <= 57 {
        Some(code - 48)
    } else if 97 <= code <= 102 {
        Some(code - 87)
    } else if 65 <= code <= 70 {
        Some(code - 55)
    } else {
        None
    }
}

/// The hex text of `bytes`: two lower-case digits per byte, high nibble
/// first, no separators.
pub open spec fn hex_text(bytes: Seq<u8>) -> Seq<char> {
    Seq::new(
        2 * bytes.len(),
        |i: int|
            if i % 2 == 0 {
                hex_digit(bytes[i / 2] as int / 16) as char
            } else {
                hex_digit(bytes[i / 2] as int % 16) as char
            },
    )
}

/// Whether `text` is hex: an even number of bytes, each of them a hex digit.
pub open spec fn is_hex_text(text: Seq<u8>) -> bool {
    &&& text.len() % 2 == 0
    &&& forall|i: int| 0 <= i < text.len() ==> (#[trigger] hex_value(text[i])) is Some
}

/// The bytes that hex `text` stands for.
pub open spec fn hex_bytes(text: Seq<u8>) -> Seq<u8> {
    Seq::new(
        text.len() / 2,
        |i: int| (hex_value(text[2 * i])->0 * 16 + hex_value(text[2 * i + 1])->0) as u8,
    )
}

/// The diagnostic with which `hex` rejects `text`: the `Display` form of the
/// `FromHexError` that `hex::decode` returns for it.
pub uninterp spec fn hex_fault_text(text: Seq<u8>) -> Seq<char>;

/// Trusted: `hex::encode`. It walks the bytes in order and emits, for each,
/// the digit of the high nibble and then of the low nibble from the table
/// `0123456789abcdef`.
#[verifier::external_body]
fn encode_lower(data: &[u8]) -> (out: String)
    ensures
        out@ == hex_text(data@),
{
    hex::encode(data)
}

/// Trusted: `hex::decode`, with a rejection rendered by `FromHexError`'s
/// `Display`. The decoder reads the UTF-8 bytes of the text; it accepts
/// exactly an even number of digits `0-9`, `a-f`, `A-F`, and each pair gives
/// sixteen times the first digit plus the second. An odd number of bytes is
/// rejected before any digit is looked at.
#[verifier::external_body]
fn decode_or_fault(data: &str) -> (r: Result<Vec<u8>, String>)
    ensures
        r is Ok <==> is_hex_text(encode_utf8(data@)),
        r matches Ok(bytes) ==> bytes@ == hex_bytes(encode_utf8(data@)),
        r matches Err(msg) ==> msg@ == hex_fault_text(encode_utf8(data@)),
        r matches Err(msg) ==> encode_utf8(data@).len() % 2 == 1 ==> msg@
            == "Odd number of digits"@,
{
    match hex::decode(data) {
        Ok(bytes) => Ok(bytes),
        Err(e) => Err(e.to_string()),
    }
}

/// Encodes bytes as lower-case hex text. Total.
pub fn hex_encode(data: Vec<u8>) -> (out: String)
    ensures
        out@ == hex_text(data@),
{
    encode_lower(data.as_slice())
}

/// Decodes hex text into bytes.
///
/// Succeeds exactly on hex text, with the bytes it stands for. Any other
/// input is reported as `Generic`, carrying the decoder's diagnostic.
pub fn hex_decode(data: String) -> (r: Result<Vec<u8>, FastCryptoError>)
    ensures
        r is Ok <==> is_hex_text(encode_utf8(data@)),
        r matches Ok(bytes) ==> bytes@ == hex_bytes(encode_utf8(data@)),
        r matches Err(e) ==> e.text() == hex_fault_text(encode_utf8(data@)),
        r matches Err(e) ==> encode_utf8(data@).len() % 2 == 1 ==> e.text()
            == "Odd number of digits"@,
{
    FastCryptoError::flatten(decode_or_fault(data.as_str()))
}

/// A hex digit is read back as the value it was written for.
pub proof fn lemma_hex_digit_value(value: int)
    requires
        0 <= value < 16,
    ensures
        hex_value(hex_digit(value)) == Some(value),
        hex_digit(value) < 128,
{
}

/// The hex text of any bytes is plain ASCII, so its UTF-8 bytes are its
/// characters one for one.
pub proof fn lemma_hex_text_ascii(bytes: Seq<u8>)
    ensures
        is_ascii_chars(hex_text(bytes)),
        encode_utf8(hex_text(bytes)).len() == 2 * bytes.len(),
        forall|i: int|
            0 <= i < 2 * bytes.len() ==> #[trigger] encode_utf8(hex_text(bytes))[i] == hex_text(
                bytes,
            )[i] as u8,
{
    let text = hex_text(bytes);
    assert forall|i: int| 0 <= i < text.len() implies '\0' <= #[trigger] text[i] <= '\u{7f}' by {
        let byte = bytes[i / 2] as int;
        lemma_hex_digit_value(byte / 16);
        lemma_hex_digit_value(byte % 16);
    }
    is_ascii_chars_encode_utf8(text);
}

/// Decoding undoes encoding: for every byte sequence, the empty one
/// included, its hex text is accepted and stands for those very bytes.
pub proof fn lemma_hex_round_trip(bytes: Seq<u8>)
    ensures
        is_hex_text(encode_utf8(hex_text(bytes))),
        hex_bytes(encode_utf8(hex_text(bytes))) == bytes,
{
    let text = hex_text(bytes);
    let raw = encode_utf8(text);
    lemma_hex_text_ascii(bytes);
    assert forall|i: int| 0 <= i < raw.len() implies (#[trigger] hex_value(raw[i])) is Some by {
        let byte = bytes[i / 2] as int;
        lemma_hex_digit_value(byte / 16);
        lemma_hex_digit_value(byte % 16);
        assert(raw[i] == text[i] as u8);
    }
    assert forall|k: int| 0 <= k < bytes.len() implies hex_bytes(raw)[k] == bytes[k] by {
        let byte = bytes[k] as int;
        lemma_hex_digit_value(byte / 16);
        lemma_hex_digit_value(byte % 16);
        assert(raw[2 * k] == text[2 * k] as u8);
        assert(raw[2 * k + 1] == text[2 * k + 1] as u8);
        assert((2 * k) / 2 == k && (2 * k) % 2 == 0);
        assert((2 * k + 1) / 2 == k && (2 * k + 1) % 2 == 1);
    }
    assert(hex_bytes(raw) =~= bytes);
}

} // verus!
