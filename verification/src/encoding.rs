//! Byte/text encodings used by the gateway: lowercase hexadecimal (key
//! storage, token digests, the SQLCipher key) and standard Base64 (blobs sent
//! to the cloud). The work is done by the `hex` and `base64` crates.

use vstd::prelude::*;

use base64::Engine;

verus! {

/// The lowercase hexadecimal digit of a nibble.
pub open spec fn hex_digit(v: int) -> char {
    if v < 10 {
        (48 + v) as char
    } else {
        (87 + v) as char
    }
}

/// The value of a hexadecimal digit, either case; `None` for any other char.
pub open spec fn hex_value(c: char) -> Option<int> {
    if '0' <= c && c <= '9' {
        Some(c as int - 48)
    } else if 'a' <= c && c <= 'f' {
        Some(c as int - 87)
    } else if 'A' <= c && c <= 'F' {
        Some(c as int - 55)
    } else {
        None
    }
}

/// Lowercase hexadecimal text of `bytes`, two digits per byte, high nibble first.
pub open spec fn hex_encode(bytes: Seq<u8>) -> Seq<char> {
    Seq::new(
        2 * bytes.len(),
        |j: int|
            if j % 2 == 0 {
                hex_digit((bytes[j / 2] / 16) as int)
            } else {
                hex_digit((bytes[j / 2] % 16) as int)
            },
    )
}

/// The bytes that hexadecimal `text` stands for: `None` unless the text has an
/// even number of characters, all of them hexadecimal digits (either case).
pub open spec fn hex_decode(text: Seq<char>) -> Option<Seq<u8>> {
    if text.len() % 2 == 0 && forall|i: int| 0 <= i < text.len() ==> (#[trigger] hex_value(text[i])) is Some {
        Some(
            Seq::new(
                text.len() / 2,
                |i: int| (hex_value(text[2 * i])->0 * 16 + hex_value(text[2 * i + 1])->0) as u8,
            ),
        )
    } else {
        None
    }
}

proof fn lemma_hex_digit_value(v: int)
    requires
        0 <= v < 16,
    ensures
        hex_value(hex_digit(v)) == Some(v),
{
}

/// Decoding the hexadecimal text of some bytes gives those bytes back.
pub proof fn lemma_hex_round_trip(bytes: Seq<u8>)
    ensures
        hex_decode(hex_encode(bytes)) == Some(bytes),
{
    let text = hex_encode(bytes);
    assert forall|i: int| 0 <= i < text.len() implies (#[trigger] hex_value(text[i])) is Some by {
        if i % 2 == 0 {
            lemma_hex_digit_value((bytes[i / 2] / 16) as int);
        } else {
            lemma_hex_digit_value((bytes[i / 2] % 16) as int);
        }
    }
    let decoded = hex_decode(text)->0;
    assert forall|i: int| 0 <= i < bytes.len() implies decoded[i] == bytes[i] by {
        let b = bytes[i];
        assert((2 * i) / 2 == i);
        assert((2 * i + 1) / 2 == i);
        assert((2 * i) % 2 == 0);
        assert((2 * i + 1) % 2 == 1);
        lemma_hex_digit_value((b / 16) as int);
        lemma_hex_digit_value((b % 16) as int);
        assert(b / 16 * 16 + b % 16 == b);
    }
    assert(decoded =~= bytes);
}

/// Calls `hex::encode`: the lowercase hexadecimal text of `data`, two digits
/// per byte, high nibble first (the crate's `HEX_CHARS_LOWER` table).
#[verifier::external_body]
pub(crate) fn hex_encode_bytes(data: &[u8]) -> (s: String)
    ensures
        s@ == hex_encode(data@),
{
    hex::encode(data)
}

/// Calls `hex::decode` on the text's bytes and keeps the bytes on success.
/// The crate fails on an odd length and on any byte that is not a hexadecimal
/// digit of either case (a non-ASCII character never is), which is what
/// `hex_decode` says over the characters.
#[verifier::external_body]
pub(crate) fn hex_decode_text(text: &str) -> (r: Option<Vec<u8>>)
    ensures
        match r {
            Some(v) => hex_decode(text@) == Some(v@),
            None => hex_decode(text@) is None,
        },
{
    hex::decode(text).ok()
}

/// The character of a 6-bit value in the standard Base64 alphabet
/// (`A`-`Z`, `a`-`z`, `0`-`9`, `+`, `/`).
pub open spec fn base64_char(v: int) -> char {
    if v < 26 {
        (65 + v) as char
    } else if v < 52 {
        (71 + v) as char
    } else if v < 62 {
        (v - 4) as char
    } else if v == 62 {
        '+'
    } else {
        '/'
    }
}

/// The standard Base64 text (RFC 4648 alphabet, with `=` padding) of some
/// bytes: each group of three bytes becomes four characters, six bits each,
/// high bits first; a final group of one or two bytes is padded with `=`.
pub open spec fn base64_standard(data: Seq<u8>) -> Seq<char>
    decreases data.len(),
{
    if data.len() == 0 {
        Seq::empty()
    } else if data.len() == 1 {
        let b0 = data[0] as int;
        seq![base64_char(b0 / 4), base64_char((b0 % 4) * 16), '=', '=']
    } else if data.len() == 2 {
        let b0 = data[0] as int;
        let b1 = data[1] as int;
        seq![base64_char(b0 / 4), base64_char((b0 % 4) * 16 + b1 / 16), base64_char((b1 % 16) * 4), '=']
    } else {
        let b0 = data[0] as int;
        let b1 = data[1] as int;
        let b2 = data[2] as int;
        seq![
            base64_char(b0 / 4),
            base64_char((b0 % 4) * 16 + b1 / 16),
            base64_char((b1 % 16) * 4 + b2 / 64),
            base64_char(b2 % 64),
        ] + base64_standard(data.subrange(3, data.len() as int))
    }
}

/// Base64 text has four characters per started group of three bytes.
pub proof fn lemma_base64_len(data: Seq<u8>)
    ensures
        base64_standard(data).len() == 4 * ((data.len() + 2) / 3),
    decreases data.len(),
{
    if data.len() >= 3 {
        lemma_base64_len(data.subrange(3, data.len() as int));
    }
}

/// Calls `base64::engine::general_purpose::STANDARD.encode`: the standard
/// Base64 text of `data` (`base64_standard`). The crate panics when the text's
/// length overflows `usize`, which `requires` leaves out.
#[verifier::external_body]
pub(crate) fn base64_encode_bytes(data: &[u8]) -> (s: String)
    requires
        4 * ((data@.len() + 2) / 3) <= usize::MAX,
    ensures
        s@ == base64_standard(data@),
{
    base64::engine::general_purpose::STANDARD.encode(data)
}

} // verus!
