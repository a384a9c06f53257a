//! Key derivation: from a passphrase and a salt to a cipher key.

use vstd::prelude::*;
use vstd::utf8::encode_utf8;
use pbkdf2::pbkdf2_hmac;
use sha2::Sha256;
use crate::cipher::KEY_SIZE;

verus! {

/// Length of a key-derivation salt, in bytes.
pub const SALT_SIZE: usize = 16;

/// How often PBKDF2 applies its pseudorandom function. The cost is
/// deliberate: it is paid once per guess of the passphrase.
pub const PBKDF2_ITERATIONS: u32 = 100_000;

/// The first `length` bytes that PBKDF2 with HMAC-SHA256 derives from
/// `password` and `salt` in `rounds` iterations.
pub uninterp spec fn pbkdf2_hmac_sha256(
    password: Seq<u8>,
    salt: Seq<u8>,
    rounds: u32,
    length: nat,
) -> Seq<u8>;

/// The key that belongs to a passphrase and a salt.
pub open spec fn derived_key(password: Seq<char>, salt: Seq<u8>) -> Seq<u8> {
    pbkdf2_hmac_sha256(encode_utf8(password), salt, PBKDF2_ITERATIONS, KEY_SIZE as nat)
}

/// Calls `pbkdf2_hmac::<Sha256>` of `pbkdf2` on a buffer of 32 bytes.
///
/// Trusted, from the crate's source: the call fills the whole buffer, with
/// bytes that depend on the password, the salt, the number of rounds and the
/// buffer's length alone, and it accepts a password and a salt of any length.
#[verifier::external_body]
fn pbkdf2_sha256_key(password: &[u8], salt: &[u8], rounds: u32) -> (key: [u8; 32])
    ensures
        key@ == pbkdf2_hmac_sha256(password@, salt@, rounds, 32),
{
    let mut key = [0u8; 32];
    pbkdf2_hmac::<Sha256>(password, salt, rounds, &mut key);
    key
}

/// Derives the 32-byte cipher key from a passphrase and a 16-byte salt.
///
/// The same passphrase and salt always give the same key. There is no error
/// path: a caller holds a salt of the right length before it asks.
pub fn derive_key(password: &str, salt: &[u8]) -> (key: [u8; 32])
    requires
        salt@.len() == SALT_SIZE,
    ensures
        key@ == derived_key(password@, salt@),
        key@.len() == KEY_SIZE,
{
    pbkdf2_sha256_key(password.as_bytes(), salt, PBKDF2_ITERATIONS)
}

} // verus!
