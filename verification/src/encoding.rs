//! Binary-to-text encodings: base64 for the envelope, hexadecimal for digests.

use vstd::prelude::*;
use base64::engine::general_purpose::STANDARD;
use base64::Engine;

verus! {

/// The standard base64 text, with padding, of a byte sequence.
pub uninterp spec fn base64_text(bytes: Seq<u8>) -> Seq<char>;

/// The bytes that a standard base64 text stands for, or `None` where the
/// text is not valid base64.
pub uninterp spec fn base64_bytes(text: Seq<char>) -> Option<Seq<u8>>;

/// Calls `Engine::encode` of `base64` on the `STANDARD` engine.
///
/// Trusted: the text depends on the bytes alone. The call panics only where
/// the length of the text would not fit in `usize`, which no slice reaches.
#[verifier::external_body]
fn base64_encode(bytes: &[u8]) -> (text: String)
    ensures
        text@ == base64_text(bytes@),
{
    STANDARD.encode(bytes)
}

/// Calls `Engine::decode` of `base64` on the `STANDARD` engine.
///
/// Trusted: whether the text is accepted, and the bytes it gives, depend on
/// the text alone; and the text that `Engine::encode` made of some bytes is
/// decoded to those bytes.
#[verifier::external_body]
fn base64_decode(text: &str) -> (r: Option<Vec<u8>>)
    ensures
        r is Some <==> base64_bytes(text@) is Some,
        r is Some ==> r->Some_0@ == base64_bytes(text@)->Some_0,
        forall|bytes: Seq<u8>| text@ == #[trigger] base64_text(bytes) ==> r is Some && r->Some_0@ == bytes,
{
    STANDARD.decode(text).ok()
}

/// What `decode_base64` returns.
pub open spec fn decoded(text: Seq<char>) -> Option<Seq<u8>> {
    base64_bytes(text)
}

/// The bytes of an optional vector, as a sequence.
pub open spec fn option_bytes(r: Option<Vec<u8>>) -> Option<Seq<u8>> {
    match r {
        Some(v) => Some(v@),
        None => None,
    }
}

/// Encodes bytes as standard base64 text with padding.
pub fn encode_base64(bytes: &[u8]) -> (text: String)
    ensures
        text@ == base64_text(bytes@),
{
    base64_encode(bytes)
}

/// Decodes standard base64 text, or returns `None` where the text is not
/// valid base64. The text that `encode_base64` made of some bytes is decoded
/// to those bytes.
pub fn decode_base64(text: &str) -> (r: Option<Vec<u8>>)
    ensures
        option_bytes(r) == base64_bytes(text@),
        forall|bytes: Seq<u8>| text@ == #[trigger] base64_text(bytes) ==> option_bytes(r) == Some(bytes),
{
    base64_decode(text)
}

/// The lower-case hexadecimal digit of a value below 16: `0` to `9` start at
/// code 48, and `a` to `f`, which stand for 10 to 15, at code 97.
pub open spec fn hex_digit(nibble: u8) -> char {
    if nibble < 10 {
        ((48 + nibble) as u8) as char
    } else {
        ((87 + nibble) as u8) as char
    }
}

/// The lower-case hexadecimal text of a byte sequence: two digits per byte,
/// the high half first.
pub open spec fn hex_text(bytes: Seq<u8>) -> Seq<char> {
    Seq::new(
        2 * bytes.len(),
        |i: int|
            if i % 2 == 0 {
                hex_digit(bytes[i / 2] / 16)
            } else {
                hex_digit(bytes[i / 2] % 16)
            },
    )
}

/// Adds a character to the end of a string, as its documentation says.
pub assume_specification[ String::push ](s: &mut String, c: char)
    ensures
        final(s)@ == old(s)@.push(c),
;

/// The decimal digit of a value below 10: the digits start at code 48.
pub open spec fn decimal_digit(d: u8) -> char {
    ((48 + d) as u8) as char
}

/// The decimal text of a small number, without leading zeros.
pub open spec fn decimal_text(v: u8) -> Seq<char> {
    if v < 10 {
        seq![decimal_digit(v)]
    } else if v < 100 {
        seq![decimal_digit(v / 10), decimal_digit(v % 10)]
    } else {
        seq![decimal_digit(v / 100), decimal_digit(v / 10 % 10), decimal_digit(v % 10)]
    }
}

/// Computes one decimal digit.
fn decimal_digit_of(d: u8) -> (c: char)
    requires
        d < 10,
    ensures
        c == decimal_digit(d),
{
    (48u8 + d) as char
}

/// Writes a small number in decimal.
pub fn to_decimal(v: u8) -> (text: String)
    ensures
        text@ == decimal_text(v),
{
    let mut text = String::new();
    if v >= 100 {
        text.push(decimal_digit_of(v / 100));
    }
    if v >= 10 {
        text.push(decimal_digit_of(v / 10 % 10));
    }
    text.push(decimal_digit_of(v % 10));
    assert(text@ =~= decimal_text(v));
    text
}

/// Computes one hexadecimal digit.
fn hex_digit_of(nibble: u8) -> (c: char)
    requires
        nibble < 16,
    ensures
        c == hex_digit(nibble),
{
    if nibble < 10 {
        (48u8 + nibble) as char
    } else {
        (87u8 + nibble) as char
    }
}

/// Writes bytes as lower-case hexadecimal text.
pub fn to_hex(bytes: &[u8]) -> (text: String)
    ensures
        text@ == hex_text(bytes@),
        text@.len() == 2 * bytes@.len(),
{
    let mut text = String::new();
    let mut i: usize = 0;
    while i < bytes.len()
        invariant
            i <= bytes@.len(),
            text@ == hex_text(bytes@.subrange(0, i as int)),
        decreases bytes@.len() - i,
    {
        let byte: u8 = bytes[i];
        text.push(hex_digit_of(byte / 16));
        text.push(hex_digit_of(byte % 16));
        assert(text@ =~= hex_text(bytes@.subrange(0, i + 1)));
        i += 1;
    }
    assert(bytes@.subrange(0, i as int) =~= bytes@);
    text
}

} // verus!
