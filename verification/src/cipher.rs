//! AES-256-GCM over plain byte slices.
//!
//! The cipher itself is the `aes-gcm` crate's. What it computes is named here
//! by two uninterpreted functions, `aes256_gcm_sealed` and
//! `aes256_gcm_opened`; the verified functions `encrypt` and `decrypt` say
//! exactly when the cipher is asked and which error stands for each refusal.

use vstd::prelude::*;
use aes_gcm::aead::{Aead, KeyInit};
use aes_gcm::{Aes256Gcm, Nonce};
use crate::error::CryptoError;

verus! {

/// Length of a cipher key, in bytes.
pub const KEY_SIZE: usize = 32;

/// Length of a nonce, in bytes.
pub const NONCE_SIZE: usize = 12;

/// Length of the authentication tag that ends every sealed payload.
pub const TAG_SIZE: usize = 16;

/// The longest plaintext the cipher accepts, in bytes.
pub const MAX_PLAINTEXT_LEN: u64 = 0x10_0000_0000;

/// The bytes AES-256-GCM produces for `plaintext` under a 32-byte `key` and a
/// 12-byte `nonce`, without associated data: the ciphertext followed by its
/// tag.
pub uninterp spec fn aes256_gcm_sealed(key: Seq<u8>, nonce: Seq<u8>, plaintext: Seq<u8>) -> Seq<u8>;

/// The plaintext AES-256-GCM recovers from `sealed` under a 32-byte `key` and
/// a 12-byte `nonce`, or `None` where the tag does not authenticate it.
pub uninterp spec fn aes256_gcm_opened(key: Seq<u8>, nonce: Seq<u8>, sealed: Seq<u8>) -> Option<
    Seq<u8>,
>;

/// The bytes of a result, as a sequence.
pub open spec fn bytes_of(r: Result<Vec<u8>, CryptoError>) -> Result<Seq<u8>, CryptoError> {
    match r {
        Ok(v) => Ok(v@),
        Err(e) => Err(e),
    }
}

/// The successful result that holds `bytes`.
pub open spec fn bytes_ok(bytes: Seq<u8>) -> Result<Seq<u8>, CryptoError> {
    Ok(bytes)
}

/// The failed result that holds `e`.
pub open spec fn bytes_err(e: CryptoError) -> Result<Seq<u8>, CryptoError> {
    Err(e)
}

/// Calls `Aes256Gcm::new_from_slice` and then `Aead::encrypt` of `aes-gcm`.
///
/// Trusted, from the crate's source: the constructor refuses exactly the keys
/// that are not 32 bytes long; encryption refuses exactly the plaintexts longer
/// than 2^36 bytes; otherwise the output depends on the three arguments alone
/// and is 16 bytes longer than the plaintext. `Nonce::from_slice` panics on a
/// slice that is not 12 bytes long, hence the precondition.
#[verifier::external_body]
fn aes256_gcm_seal(key: &[u8], nonce: &[u8], plaintext: &[u8]) -> (r: Result<Vec<u8>, CryptoError>)
    requires
        nonce@.len() == NONCE_SIZE,
    ensures
        key@.len() != KEY_SIZE ==> r is Err && r->Err_0 == CryptoError::CipherInit,
        key@.len() == KEY_SIZE && plaintext@.len() > MAX_PLAINTEXT_LEN ==> r is Err && r->Err_0
            == CryptoError::Encryption,
        key@.len() == KEY_SIZE && plaintext@.len() <= MAX_PLAINTEXT_LEN ==> r is Ok && r->Ok_0@
            == aes256_gcm_sealed(key@, nonce@, plaintext@),
        r is Ok ==> r->Ok_0@.len() == plaintext@.len() + TAG_SIZE,
{
    match Aes256Gcm::new_from_slice(key) {
        Err(_) => Err(CryptoError::CipherInit),
        Ok(cipher) => match cipher.encrypt(Nonce::from_slice(nonce), plaintext) {
            Ok(sealed) => Ok(sealed),
            Err(_) => Err(CryptoError::Encryption),
        },
    }
}

/// Calls `Aes256Gcm::new_from_slice` and then `Aead::decrypt` of `aes-gcm`.
///
/// Trusted, from the crate's source: the constructor refuses exactly the keys
/// that are not 32 bytes long; whether decryption succeeds, and with what,
/// depends on the three arguments alone; an input shorter than the tag is
/// refused; the plaintext is 16 bytes shorter than the input; and what
/// encryption produced under the same key and nonce is opened to the
/// plaintext it was made from. `Nonce::from_slice` panics on a slice that is
/// not 12 bytes long, hence the precondition.
#[verifier::external_body]
fn aes256_gcm_open(key: &[u8], nonce: &[u8], sealed: &[u8]) -> (r: Result<Vec<u8>, CryptoError>)
    requires
        nonce@.len() == NONCE_SIZE,
    ensures
        key@.len() != KEY_SIZE ==> r is Err && r->Err_0 == CryptoError::CipherInit,
        key@.len() == KEY_SIZE && aes256_gcm_opened(key@, nonce@, sealed@) is None ==> r is Err
            && r->Err_0 == CryptoError::Decryption,
        key@.len() == KEY_SIZE && aes256_gcm_opened(key@, nonce@, sealed@) is Some ==> r is Ok
            && r->Ok_0@ == aes256_gcm_opened(key@, nonce@, sealed@)->Some_0,
        sealed@.len() < TAG_SIZE ==> r is Err,
        r is Ok ==> r->Ok_0@.len() + TAG_SIZE == sealed@.len(),
        forall|plaintext: Seq<u8>|
            key@.len() == KEY_SIZE && plaintext.len() <= MAX_PLAINTEXT_LEN && sealed@
                == #[trigger] aes256_gcm_sealed(key@, nonce@, plaintext) ==> r is Ok && r->Ok_0@
                == plaintext,
{
    match Aes256Gcm::new_from_slice(key) {
        Err(_) => Err(CryptoError::CipherInit),
        Ok(cipher) => match cipher.decrypt(Nonce::from_slice(nonce), sealed) {
            Ok(plaintext) => Ok(plaintext),
            Err(_) => Err(CryptoError::Decryption),
        },
    }
}

/// What `encrypt` returns.
pub open spec fn seal_outcome(key: Seq<u8>, nonce: Seq<u8>, plaintext: Seq<u8>) -> Result<
    Seq<u8>,
    CryptoError,
> {
    if nonce.len() != NONCE_SIZE {
        Err(CryptoError::Encryption)
    } else if key.len() != KEY_SIZE {
        Err(CryptoError::CipherInit)
    } else if plaintext.len() > MAX_PLAINTEXT_LEN {
        Err(CryptoError::Encryption)
    } else {
        Ok(aes256_gcm_sealed(key, nonce, plaintext))
    }
}

/// What `decrypt` returns.
pub open spec fn open_outcome(key: Seq<u8>, nonce: Seq<u8>, sealed: Seq<u8>) -> Result<
    Seq<u8>,
    CryptoError,
> {
    if nonce.len() != NONCE_SIZE {
        Err(CryptoError::Decryption)
    } else if key.len() != KEY_SIZE {
        Err(CryptoError::CipherInit)
    } else {
        match aes256_gcm_opened(key, nonce, sealed) {
            Some(plaintext) => Ok(plaintext),
            None => Err(CryptoError::Decryption),
        }
    }
}

/// Seals `plaintext` under `key` and `nonce`. The result is the ciphertext
/// with its tag appended, 16 bytes longer than the plaintext.
///
/// A nonce of the wrong length or an overlong plaintext gives
/// `CryptoError::Encryption`, a key of the wrong length
/// `CryptoError::CipherInit`.
pub fn encrypt(key: &[u8], nonce: &[u8], plaintext: &[u8]) -> (r: Result<Vec<u8>, CryptoError>)
    ensures
        bytes_of(r) == seal_outcome(key@, nonce@, plaintext@),
        r is Ok ==> r->Ok_0@.len() == plaintext@.len() + TAG_SIZE,
{
    if nonce.len() != NONCE_SIZE {
        return Err(CryptoError::Encryption);
    }
    aes256_gcm_seal(key, nonce, plaintext)
}

/// Opens what `encrypt` sealed. Every refusal of the cipher, and a nonce of
/// the wrong length, gives `CryptoError::Decryption`; a key of the wrong
/// length gives `CryptoError::CipherInit`.
///
/// Whatever `encrypt` returned for a plaintext under a key and a nonce,
/// `decrypt` under the same key and nonce returns that plaintext.
pub fn decrypt(key: &[u8], nonce: &[u8], sealed: &[u8]) -> (r: Result<Vec<u8>, CryptoError>)
    ensures
        bytes_of(r) == open_outcome(key@, nonce@, sealed@),
        sealed@.len() < TAG_SIZE ==> r is Err,
        r is Ok ==> r->Ok_0@.len() + TAG_SIZE == sealed@.len(),
        forall|plaintext: Seq<u8>|
            seal_outcome(key@, nonce@, plaintext) == bytes_ok(sealed@) ==> bytes_of(r)
                == bytes_ok(plaintext),
{
    if nonce.len() != NONCE_SIZE {
        return Err(CryptoError::Decryption);
    }
    aes256_gcm_open(key, nonce, sealed)
}

} // verus!
