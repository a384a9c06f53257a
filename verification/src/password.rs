//! Helpers around passwords: a plain digest and a random generator.

use vstd::prelude::*;
use vstd::string::StrSliceExecFns;
use vstd::utf8::encode_utf8;
use sha2::{Digest, Sha256};
use crate::encoding::{hex_text, to_hex};
use crate::random::thread_random_u32;

verus! {

/// The SHA-256 digest of a byte sequence.
pub uninterp spec fn sha256_digest(bytes: Seq<u8>) -> Seq<u8>;

/// Calls `Digest::digest` of `sha2` for `Sha256`.
///
/// Trusted: the 32 bytes that come back depend on the input alone.
#[verifier::external_body]
fn sha256(bytes: &[u8]) -> (digest: [u8; 32])
    ensures
        digest@ == sha256_digest(bytes@),
{
    Sha256::digest(bytes).into()
}

/// The text that `hash_password` returns.
pub open spec fn password_hash_text(password: Seq<char>) -> Seq<char> {
    hex_text(sha256_digest(encode_utf8(password)))
}

/// The SHA-256 digest of a password, as 64 lower-case hexadecimal digits.
///
/// This is one unsalted round of a fast hash. It identifies a password; it
/// has no part in encryption, and it is not fit for storing credentials,
/// which calls for a salted and iterated scheme.
pub fn hash_password(password: &str) -> (text: String)
    ensures
        text@ == password_hash_text(password@),
        text@.len() == 64,
{
    let digest = sha256(password.as_bytes());
    to_hex(digest.as_slice())
}

/// The characters a generated password is made of: the letters of both
/// cases, the digits, and a set of punctuation marks.
pub open spec fn password_alphabet() -> Seq<char> {
    "abcdefghijklmnopqrstuvwxyzABCDEFGHIJKLMNOPQRSTUVWXYZ0123456789!@#$%^&*()-_=+[]{}|;:,.<>?"@
}

/// How many characters `password_alphabet` holds.
pub const PASSWORD_ALPHABET_LEN: usize = 88;

/// The character that a random number selects.
pub open spec fn drawn_char(draw: u32) -> char {
    password_alphabet()[draw as int % PASSWORD_ALPHABET_LEN as int]
}

/// The password that a sequence of random numbers selects, one character
/// for each number.
pub open spec fn drawn_password(draws: Seq<u32>) -> Seq<char> {
    Seq::new(draws.len(), |i: int| drawn_char(draws[i]))
}

/// Selects a character of the alphabet by a random number, reduced modulo
/// the alphabet's length. The length does not divide 2^32, so the first
/// characters of the alphabet are very slightly more likely than the last.
pub fn password_char(draw: u32) -> (c: char)
    ensures
        c == drawn_char(draw),
        password_alphabet().contains(c),
{
    let alphabet =
        "abcdefghijklmnopqrstuvwxyzABCDEFGHIJKLMNOPQRSTUVWXYZ0123456789!@#$%^&*()-_=+[]{}|;:,.<>?";
    proof {
        reveal_strlit(
            "abcdefghijklmnopqrstuvwxyzABCDEFGHIJKLMNOPQRSTUVWXYZ0123456789!@#$%^&*()-_=+[]{}|;:,.<>?",
        );
    }
    let index: usize = draw as usize % PASSWORD_ALPHABET_LEN;
    alphabet.get_char(index)
}

/// Generates a password of `length` characters, each selected from
/// `password_alphabet` by a number from the thread's cryptographically secure
/// random generator.
pub fn generate_secure_password(length: u8) -> (password: String)
    ensures
        password@.len() == length,
        forall|i: int| 0 <= i < password@.len() ==> password_alphabet().contains(#[trigger] password@[i]),
        exists|draws: Seq<u32>| draws.len() == length && password@ == #[trigger] drawn_password(draws),
{
    let mut password = String::new();
    let ghost mut draws: Seq<u32> = Seq::empty();
    let mut i: u8 = 0;
    while i < length
        invariant
            i <= length,
            draws.len() == i,
            password@ == drawn_password(draws),
            forall|j: int| 0 <= j < password@.len() ==> password_alphabet().contains(#[trigger] password@[j]),
        decreases length - i,
    {
        let draw = thread_random_u32();
        let c = password_char(draw);
        password.push(c);
        proof {
            draws = draws.push(draw);
            assert(password@ =~= drawn_password(draws));
        }
        i += 1;
    }
    password
}

} // verus!
