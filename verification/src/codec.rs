//! The secret codec: hexadecimal text to bytes, bytes to unpadded upper-case
//! Base32, and the otpauth URI built around the result.

use crate::error::{ExportError, ExportErrorView};
use crate::text::{is_tight, lemma_trimmed_tight, trim, trimmed};
use vstd::prelude::*;
use vstd::string::*;

verus! {

/// The value of a hexadecimal digit, in either case; -1 for any other character.
pub open spec fn hex_digit_value(c: char) -> int {
    let n = c as u32 as int;
    if 48 <= n <= 57 {
        n - 48
    } else if 97 <= n <= 102 {
        n - 87
    } else if 65 <= n <= 70 {
        n - 55
    } else {
        -1
    }
}

/// Hexadecimal text: an even number of characters, each a hexadecimal digit.
pub open spec fn is_hex_text(s: Seq<char>) -> bool {
    &&& s.len() % 2 == 0
    &&& forall|i: int| 0 <= i < s.len() ==> hex_digit_value(#[trigger] s[i]) >= 0
}

/// The bytes that hexadecimal text stands for, two digits to a byte.
pub open spec fn hex_bytes(s: Seq<char>) -> Seq<u8> {
    Seq::new(
        s.len() / 2,
        |i: int| (16 * hex_digit_value(s[2 * i]) + hex_digit_value(s[2 * i + 1])) as u8,
    )
}

/// Bit `j` of a byte, counted from the most significant one.
pub open spec fn byte_bit(v: u8, j: int) -> int {
    if j == 0 {
        (v as int / 128) % 2
    } else if j == 1 {
        (v as int / 64) % 2
    } else if j == 2 {
        (v as int / 32) % 2
    } else if j == 3 {
        (v as int / 16) % 2
    } else if j == 4 {
        (v as int / 8) % 2
    } else if j == 5 {
        (v as int / 4) % 2
    } else if j == 6 {
        (v as int / 2) % 2
    } else {
        v as int % 2
    }
}

/// Bit `p` of the bit stream that `bytes` form; 0 beyond its end.
pub open spec fn bit_at(bytes: Seq<u8>, p: int) -> int {
    if 0 <= p < 8 * bytes.len() {
        byte_bit(bytes[p / 8], p % 8)
    } else {
        0
    }
}

/// The number of Base32 symbols that encode `n` bytes without padding.
pub open spec fn symbol_count(n: nat) -> nat {
    ((8 * n + 4) / 5) as nat
}

/// The value of symbol `k`: five bits of the stream, the first one weighing most.
pub open spec fn symbol_value(bytes: Seq<u8>, k: int) -> int {
    16 * bit_at(bytes, 5 * k) + 8 * bit_at(bytes, 5 * k + 1) + 4 * bit_at(bytes, 5 * k + 2) + 2
        * bit_at(bytes, 5 * k + 3) + bit_at(bytes, 5 * k + 4)
}

/// The character of the Base32 alphabet for a value below 32: `A` to `Z`, then `2` to `7`.
pub open spec fn base32_char(v: int) -> char {
    if v < 26 {
        ((65 + v) as u8) as char
    } else {
        ((24 + v) as u8) as char
    }
}

/// The unpadded upper-case Base32 text of `bytes`.
pub open spec fn base32_text(bytes: Seq<u8>) -> Seq<char> {
    Seq::new(symbol_count(bytes.len()), |k: int| base32_char(symbol_value(bytes, k)))
}

/// The value of a character of the upper-case Base32 alphabet; -1 for any other.
pub open spec fn base32_char_value(c: char) -> int {
    let n = c as u32 as int;
    if 65 <= n <= 90 {
        n - 65
    } else if 50 <= n <= 55 {
        n - 24
    } else {
        -1
    }
}

/// Bit `j` of a five-bit value, counted from the most significant one.
pub open spec fn symbol_bit(v: int, j: int) -> int {
    if j == 0 {
        (v / 16) % 2
    } else if j == 1 {
        (v / 8) % 2
    } else if j == 2 {
        (v / 4) % 2
    } else if j == 3 {
        (v / 2) % 2
    } else {
        v % 2
    }
}

/// Bit `p` of the bit stream that Base32 text forms; 0 beyond its end.
pub open spec fn text_bit_at(text: Seq<char>, p: int) -> int {
    if 0 <= p < 5 * text.len() {
        symbol_bit(base32_char_value(text[p / 5]), p % 5)
    } else {
        0
    }
}

/// Byte `i` of the bit stream that Base32 text forms.
pub open spec fn decoded_byte(text: Seq<char>, i: int) -> int {
    128 * text_bit_at(text, 8 * i) + 64 * text_bit_at(text, 8 * i + 1) + 32 * text_bit_at(
        text,
        8 * i + 2,
    ) + 16 * text_bit_at(text, 8 * i + 3) + 8 * text_bit_at(text, 8 * i + 4) + 4 * text_bit_at(
        text,
        8 * i + 5,
    ) + 2 * text_bit_at(text, 8 * i + 6) + text_bit_at(text, 8 * i + 7)
}

/// Whether `text` is made of characters of the upper-case Base32 alphabet alone.
pub open spec fn is_base32_text(text: Seq<char>) -> bool {
    forall|k: int| 0 <= k < text.len() ==> base32_char_value(#[trigger] text[k]) >= 0
}

/// The bytes that unpadded Base32 text decodes to: the whole bytes of its bit stream.
pub open spec fn base32_decoded(text: Seq<char>) -> Seq<u8> {
    Seq::new((5 * text.len() / 8) as nat, |i: int| decoded_byte(text, i) as u8)
}

/// Every bit of a byte stream is 0 or 1.
proof fn lemma_bit_range(bytes: Seq<u8>, p: int)
    ensures
        0 <= bit_at(bytes, p) <= 1,
{
    if 0 <= p < 8 * bytes.len() {
        let v = bytes[p / 8];
        assert(forall|j: int| 0 <= #[trigger] byte_bit(v, j) <= 1);
    }
}

/// Five bits, weighted from 16 down to 1, can be read back from their sum.
proof fn lemma_five_bits(a: int, b: int, c: int, d: int, e: int)
    requires
        0 <= a <= 1,
        0 <= b <= 1,
        0 <= c <= 1,
        0 <= d <= 1,
        0 <= e <= 1,
    ensures
        ({
            let v = 16 * a + 8 * b + 4 * c + 2 * d + e;
            &&& 0 <= v < 32
            &&& (v / 16) % 2 == a
            &&& (v / 8) % 2 == b
            &&& (v / 4) % 2 == c
            &&& (v / 2) % 2 == d
            &&& v % 2 == e
        }),
{
}

/// A symbol of the encoding is a five-bit value whose bits are those of the stream.
proof fn lemma_symbol_bits(bytes: Seq<u8>, k: int)
    ensures
        0 <= symbol_value(bytes, k) < 32,
        forall|j: int| 0 <= j < 5 ==> symbol_bit(symbol_value(bytes, k), j) == bit_at(bytes, 5 * k + j),
{
    let a = bit_at(bytes, 5 * k);
    let b = bit_at(bytes, 5 * k + 1);
    let c = bit_at(bytes, 5 * k + 2);
    let d = bit_at(bytes, 5 * k + 3);
    let e = bit_at(bytes, 5 * k + 4);
    lemma_bit_range(bytes, 5 * k);
    lemma_bit_range(bytes, 5 * k + 1);
    lemma_bit_range(bytes, 5 * k + 2);
    lemma_bit_range(bytes, 5 * k + 3);
    lemma_bit_range(bytes, 5 * k + 4);
    lemma_five_bits(a, b, c, d, e);
    assert(symbol_value(bytes, k) == 16 * a + 8 * b + 4 * c + 2 * d + e);
}

/// Each character of the alphabet stands for the value it was chosen for.
proof fn lemma_base32_char_value(v: int)
    requires
        0 <= v < 32,
    ensures
        base32_char_value(base32_char(v)) == v,
{
}

/// The encoded text carries the bits of the bytes, followed by zeros.
proof fn lemma_text_bit(bytes: Seq<u8>, p: int)
    requires
        0 <= p,
    ensures
        text_bit_at(base32_text(bytes), p) == bit_at(bytes, p),
{
    let text = base32_text(bytes);
    if p < 5 * text.len() {
        let k = p / 5;
        let j = p % 5;
        lemma_symbol_bits(bytes, k);
        lemma_base32_char_value(symbol_value(bytes, k));
        assert(text[k] == base32_char(symbol_value(bytes, k)));
        assert(5 * k + j == p);
    }
}

/// A byte is the weighted sum of its eight bits.
proof fn lemma_byte_from_bits(v: u8)
    ensures
        128 * byte_bit(v, 0) + 64 * byte_bit(v, 1) + 32 * byte_bit(v, 2) + 16 * byte_bit(v, 3) + 8
            * byte_bit(v, 4) + 4 * byte_bit(v, 5) + 2 * byte_bit(v, 6) + byte_bit(v, 7) == v,
{
    let x: u32 = v as u32;
    assert(128 * ((x / 128) % 2) + 64 * ((x / 64) % 2) + 32 * ((x / 32) % 2) + 16 * ((x / 16) % 2)
        + 8 * ((x / 8) % 2) + 4 * ((x / 4) % 2) + 2 * ((x / 2) % 2) + x % 2 == x) by (bit_vector)
        requires
            x < 256,
    ;
}

/// Bit `j` of byte `i` stands at position `8 * i + j` of the stream.
proof fn lemma_stream_bit(bytes: Seq<u8>, i: int, j: int)
    requires
        0 <= i < bytes.len(),
        0 <= j < 8,
    ensures
        bit_at(bytes, 8 * i + j) == byte_bit(bytes[i], j),
{
    assert((8 * i + j) / 8 == i && (8 * i + j) % 8 == j);
}

/// Byte `i` of the decoded text is byte `i` of what was encoded.
proof fn lemma_decoded_byte(bytes: Seq<u8>, i: int)
    requires
        0 <= i < bytes.len(),
    ensures
        decoded_byte(base32_text(bytes), i) == bytes[i],
{
    let text = base32_text(bytes);
    lemma_text_bit(bytes, 8 * i);
    lemma_text_bit(bytes, 8 * i + 1);
    lemma_text_bit(bytes, 8 * i + 2);
    lemma_text_bit(bytes, 8 * i + 3);
    lemma_text_bit(bytes, 8 * i + 4);
    lemma_text_bit(bytes, 8 * i + 5);
    lemma_text_bit(bytes, 8 * i + 6);
    lemma_text_bit(bytes, 8 * i + 7);
    lemma_stream_bit(bytes, i, 0);
    lemma_stream_bit(bytes, i, 1);
    lemma_stream_bit(bytes, i, 2);
    lemma_stream_bit(bytes, i, 3);
    lemma_stream_bit(bytes, i, 4);
    lemma_stream_bit(bytes, i, 5);
    lemma_stream_bit(bytes, i, 6);
    lemma_stream_bit(bytes, i, 7);
    lemma_byte_from_bits(bytes[i]);
}

/// Each character of the encoded text belongs to the alphabet.
proof fn lemma_text_in_alphabet(bytes: Seq<u8>, k: int)
    requires
        0 <= k < base32_text(bytes).len(),
    ensures
        base32_char_value(base32_text(bytes)[k]) >= 0,
{
    lemma_symbol_bits(bytes, k);
    lemma_base32_char_value(symbol_value(bytes, k));
}

/// Decoding the Base32 text of any bytes gives those bytes back, and the text
/// holds upper-case letters and the digits 2 to 7 alone, with no padding.
pub proof fn lemma_base32_round_trip(bytes: Seq<u8>)
    ensures
        base32_decoded(base32_text(bytes)) == bytes,
        is_base32_text(base32_text(bytes)),
        base32_text(bytes).len() == symbol_count(bytes.len()),
{
    let text = base32_text(bytes);
    assert forall|k: int| 0 <= k < text.len() implies base32_char_value(#[trigger] text[k])
        >= 0 by {
        lemma_text_in_alphabet(bytes, k);
    }
    let back = base32_decoded(text);
    assert(text.len() == (8 * bytes.len() + 4) / 5);
    assert(back.len() == bytes.len());
    assert forall|i: int| 0 <= i < bytes.len() implies back[i] == bytes[i] by {
        lemma_decoded_byte(bytes, i);
    }
    assert(back =~= bytes);
}

/// Whether two characters are one letter of the ASCII alphabet in either case,
/// or the same character.
pub open spec fn same_ignoring_case(a: char, b: char) -> bool {
    let m = a as u32 as int;
    let n = b as u32 as int;
    a == b || (65 <= m <= 90 && n == m + 32) || (65 <= n <= 90 && m == n + 32)
}

/// Hexadecimal text means the same bytes whatever the case of its digits.
pub proof fn lemma_hex_ignores_case(s: Seq<char>, t: Seq<char>)
    requires
        s.len() == t.len(),
        forall|i: int| 0 <= i < s.len() ==> same_ignoring_case(s[i], t[i]),
    ensures
        is_hex_text(s) == is_hex_text(t),
        hex_bytes(s) == hex_bytes(t),
{
    assert forall|i: int| 0 <= i < s.len() implies hex_digit_value(s[i]) == hex_digit_value(
        t[i],
    ) by {
        assert(same_ignoring_case(s[i], t[i]));
    }
    assert(hex_bytes(s) =~= hex_bytes(t));
}

/// The Base32 text of a device secret given as hexadecimal text with whitespace around it.
pub open spec fn hex_to_base32(hex_secret: Seq<char>) -> Seq<char> {
    base32_text(hex_bytes(trimmed(hex_secret)))
}

/// Decoding the Base32 text made from hexadecimal text gives the bytes that the
/// hexadecimal text stands for, and that text is upper-case and unpadded.
pub proof fn lemma_hex_to_base32_round_trip(hex_secret: Seq<char>)
    requires
        is_hex_text(trimmed(hex_secret)),
    ensures
        base32_decoded(hex_to_base32(hex_secret)) == hex_bytes(trimmed(hex_secret)),
        is_base32_text(hex_to_base32(hex_secret)),
{
    lemma_base32_round_trip(hex_bytes(trimmed(hex_secret)));
}

/// Text without whitespace around it is no hexadecimal text, and so is not
/// converted, where its length is odd or one of its characters is no
/// hexadecimal digit.
pub proof fn lemma_rejected_hex(hex_secret: Seq<char>, at: int)
    requires
        is_tight(hex_secret),
        hex_secret.len() % 2 == 1 || (0 <= at < hex_secret.len() && hex_digit_value(
            hex_secret[at],
        ) < 0),
    ensures
        !is_hex_text(trimmed(hex_secret)),
{
    lemma_trimmed_tight(hex_secret);
}

#[verifier::external_type_specification]
#[verifier::external_body]
pub struct ExFromHexError(hex::FromHexError);

/// Calls `hex::decode`. Believed of it: it succeeds exactly on an even number of
/// hexadecimal digits, and then returns one byte for each pair of digits, the
/// first digit of a pair weighing 16.
#[verifier::external_body]
fn decode_hex(text: &str) -> (r: Result<Vec<u8>, hex::FromHexError>)
    ensures
        r is Ok <==> is_hex_text(text@),
        r matches Ok(bytes) ==> bytes@ == hex_bytes(text@),
{
    hex::decode(text)
}

/// Calls `data_encoding::BASE32_NOPAD.encode`. Believed of it: the result is the
/// Base32 text of the bytes in the alphabet `A` to `Z`, `2` to `7`, five bits to
/// a character from the most significant bit on, the last character filled up
/// with zero bits, and no padding character.
#[verifier::external_body]
fn encode_base32(bytes: &[u8]) -> (r: String)
    ensures
        r@ == base32_text(bytes@),
{
    data_encoding::BASE32_NOPAD.encode(bytes)
}

/// Converts a device secret from hexadecimal text, which may have whitespace
/// around it, to unpadded upper-case Base32.
pub fn hex_to_base32_nopad_upper(hex_secret: &str) -> (r: Result<String, ExportError>)
    ensures
        match r {
            Ok(text) => {
                &&& is_hex_text(trimmed(hex_secret@))
                &&& text@ == hex_to_base32(hex_secret@)
                &&& is_base32_text(text@)
                &&& base32_decoded(text@) == hex_bytes(trimmed(hex_secret@))
            },
            Err(e) => !is_hex_text(trimmed(hex_secret@)) && e@ == ExportErrorView::InvalidHex,
        },
{
    match decode_hex(trim(hex_secret)) {
        Ok(bytes) => {
            proof {
                lemma_base32_round_trip(bytes@);
            }
            Ok(encode_base32(bytes.as_slice()))
        },
        Err(_) => Err(ExportError::InvalidHex),
    }
}

/// The otpauth URI for a serial and a Base32 secret, with the fixed parameters
/// of the authenticator: 8 digits, SHA1, a period of 30 seconds.
pub open spec fn otpauth_uri(serial: Seq<char>, base32_secret: Seq<char>) -> Seq<char> {
    "otpauth://totp/Battle.net:"@ + serial + "?secret="@ + base32_secret
        + "&issuer=Battle.net&digits=8&algorithm=SHA1&period=30"@
}

/// Builds the otpauth URI; neither argument is escaped.
pub fn build_otpauth_uri(serial: &str, base32_secret: &str) -> (r: String)
    ensures
        r@ == otpauth_uri(serial@, base32_secret@),
{
    let mut uri = String::from_str("otpauth://totp/Battle.net:");
    uri.append(serial);
    uri.append("?secret=");
    uri.append(base32_secret);
    uri.append("&issuer=Battle.net&digits=8&algorithm=SHA1&period=30");
    uri
}

/// The otpauth URI for a serial and the device secret that the server returned.
pub fn otpauth_for_secret(serial: &str, device_secret: &str) -> (r: Result<String, ExportError>)
    ensures
        match r {
            Ok(uri) => is_hex_text(trimmed(device_secret@)) && uri@ == otpauth_uri(
                serial@,
                hex_to_base32(device_secret@),
            ),
            Err(e) => !is_hex_text(trimmed(device_secret@)) && e@ == ExportErrorView::InvalidHex,
        },
{
    match hex_to_base32_nopad_upper(device_secret) {
        Ok(secret) => Ok(build_otpauth_uri(serial, secret.as_str())),
        Err(e) => Err(e),
    }
}

} // verus!
