//! Sealing a payload under a passphrase, and opening it again.
//!
//! `encrypt_data` draws a fresh salt and a fresh nonce, derives the key,
//! seals the payload and describes what it did in an `EncryptionMetadata`.
//! `decrypt_data` reads that description, derives the same key and opens the
//! payload, or reports why it could not.

use vstd::prelude::*;
use crate::cipher::{aes256_gcm_opened, aes256_gcm_sealed, bytes_err, bytes_of, bytes_ok, seal_outcome};
use crate::cipher::{decrypt, encrypt, MAX_PLAINTEXT_LEN, NONCE_SIZE, TAG_SIZE};
use crate::error::CryptoError;
use crate::kdf::{derive_key, derived_key, SALT_SIZE};
use crate::metadata::{decode_outcome, envelope_view, json_outcome};
use crate::metadata::{EncryptionMetadata, MetadataView, FORMAT_VERSION};
use crate::random::os_random_bytes;

verus! {

/// A sealed payload and the metadata that belongs to it. The two form one
/// unit, though a caller may store them apart.
#[derive(Debug, Clone)]
pub struct EncryptedData {
    /// The ciphertext, with the authentication tag at its end.
    pub data: Vec<u8>,
    /// Salt, nonce and format version of this encryption.
    pub metadata: EncryptionMetadata,
}

/// What an `EncryptedData` holds, as mathematical values.
pub struct EncryptedView {
    pub data: Seq<u8>,
    pub metadata: MetadataView,
}

impl View for EncryptedData {
    type V = EncryptedView;

    open spec fn view(&self) -> EncryptedView {
        EncryptedView { data: self.data@, metadata: self.metadata@ }
    }
}

/// The view of a result that holds an `EncryptedData`.
pub open spec fn encrypted_of(r: Result<EncryptedData, CryptoError>) -> Result<
    EncryptedView,
    CryptoError,
> {
    match r {
        Ok(e) => Ok(e@),
        Err(e) => Err(e),
    }
}

/// What encryption gives once salt and nonce are chosen: the payload sealed
/// under the key that passphrase and salt derive, beside the metadata that
/// names this salt and this nonce.
pub open spec fn encrypt_outcome(
    data: Seq<u8>,
    password: Seq<char>,
    salt: Seq<u8>,
    nonce: Seq<u8>,
) -> Result<EncryptedView, CryptoError> {
    if salt.len() != SALT_SIZE {
        Err(CryptoError::KeyDerivation)
    } else if nonce.len() != NONCE_SIZE || data.len() > MAX_PLAINTEXT_LEN {
        Err(CryptoError::Encryption)
    } else {
        Ok(
            EncryptedView {
                data: aes256_gcm_sealed(derived_key(password, salt), nonce, data),
                metadata: envelope_view(salt, nonce),
            },
        )
    }
}

/// What decryption gives for a sealed payload, its metadata and a
/// passphrase.
pub open spec fn decrypt_outcome(
    sealed: Seq<u8>,
    metadata: MetadataView,
    password: Seq<char>,
) -> Result<Seq<u8>, CryptoError> {
    match decode_outcome(metadata) {
        Err(e) => Err(e),
        Ok(params) => if params.salt.len() != SALT_SIZE {
            Err(CryptoError::KeyDerivation)
        } else if params.nonce.len() != NONCE_SIZE {
            Err(CryptoError::Decryption)
        } else {
            match aes256_gcm_opened(derived_key(password, params.salt), params.nonce, sealed) {
                Some(plaintext) => Ok(plaintext),
                None => Err(CryptoError::Decryption),
            }
        },
    }
}

/// A successful encryption with this outcome.
pub open spec fn encrypted_as(data: Seq<u8>, metadata: MetadataView) -> Result<
    EncryptedView,
    CryptoError,
> {
    Ok(EncryptedView { data, metadata })
}

/// Encrypts `data` under `password` with the salt and the nonce given.
///
/// This is the part of `encrypt_data` that involves no chance. A salt that is
/// not 16 bytes long gives `CryptoError::KeyDerivation`; a nonce that is not
/// 12 bytes long, or a payload longer than the cipher takes, gives
/// `CryptoError::Encryption`. A caller must never use one nonce twice with
/// the same passphrase and salt.
pub fn encrypt_with(data: &[u8], password: &str, salt: &[u8], nonce: &[u8]) -> (r: Result<
    EncryptedData,
    CryptoError,
>)
    ensures
        encrypted_of(r) == encrypt_outcome(data@, password@, salt@, nonce@),
        r is Ok <==> salt@.len() == SALT_SIZE && nonce@.len() == NONCE_SIZE && data@.len()
            <= MAX_PLAINTEXT_LEN,
        r is Ok ==> r->Ok_0@.data.len() == data@.len() + TAG_SIZE,
{
    if salt.len() != SALT_SIZE {
        return Err(CryptoError::KeyDerivation);
    }
    let key = derive_key(password, salt);
    match encrypt(key.as_slice(), nonce, data) {
        Ok(sealed) => Ok(EncryptedData { data: sealed, metadata: EncryptionMetadata::new(salt, nonce) }),
        Err(e) => Err(e),
    }
}

/// Encrypts `data` under `password`.
///
/// Salt and nonce come from the operating system's random generator, fresh
/// for every call, so that two encryptions of the same payload under the same
/// passphrase differ. The result is what `encrypt_with` gives for that salt
/// and that nonce; it is an error only for a payload longer than the cipher
/// takes.
pub fn encrypt_data(data: &[u8], password: &str) -> (r: Result<EncryptedData, CryptoError>)
    ensures
        exists|salt: Seq<u8>, nonce: Seq<u8>|
            salt.len() == SALT_SIZE && nonce.len() == NONCE_SIZE && encrypted_of(r)
                == #[trigger] encrypt_outcome(data@, password@, salt, nonce),
        data@.len() <= MAX_PLAINTEXT_LEN ==> r is Ok,
        data@.len() > MAX_PLAINTEXT_LEN ==> r is Err && r->Err_0 == CryptoError::Encryption,
        r is Ok ==> r->Ok_0@.data.len() == data@.len() + TAG_SIZE,
        r is Ok ==> r->Ok_0@.metadata.version == FORMAT_VERSION,
{
    let salt = os_random_bytes(SALT_SIZE);
    let nonce = os_random_bytes(NONCE_SIZE);
    encrypt_with(data, password, salt.as_slice(), nonce.as_slice())
}

/// Decrypts a sealed payload with its metadata and the passphrase.
///
/// Metadata that does not decode gives `CryptoError::MetadataParse`, a salt
/// of the wrong length `CryptoError::KeyDerivation`, and every refusal of the
/// cipher `CryptoError::Decryption`: a wrong passphrase, a changed byte in
/// ciphertext or tag, another nonce, a truncated input. On failure nothing of
/// the plaintext is returned.
///
/// What `encrypt_with` returned for some payload, and so what `encrypt_data`
/// returned, is decrypted under the same passphrase to that payload. With
/// metadata that encryption made, under whatever passphrase and on whatever
/// bytes, the one possible failure is `CryptoError::Decryption`.
pub fn decrypt_with_metadata(
    encrypted_data: &[u8],
    metadata: &EncryptionMetadata,
    password: &str,
) -> (r: Result<Vec<u8>, CryptoError>)
    ensures
        bytes_of(r) == decrypt_outcome(encrypted_data@, metadata@, password@),
        encrypted_data@.len() < TAG_SIZE ==> r is Err,
        r is Ok ==> r->Ok_0@.len() + TAG_SIZE == encrypted_data@.len(),
        forall|data: Seq<u8>, salt: Seq<u8>, nonce: Seq<u8>|
            #[trigger] encrypt_outcome(data, password@, salt, nonce) == encrypted_as(
                encrypted_data@,
                metadata@,
            ) ==> bytes_of(r) == bytes_ok(data),
        forall|salt: Seq<u8>, nonce: Seq<u8>|
            metadata@ == #[trigger] envelope_view(salt, nonce) && salt.len() == SALT_SIZE && r is Err
                ==> r->Err_0 == CryptoError::Decryption,
{
    let params = match metadata.decode() {
        Ok(params) => params,
        Err(e) => {
            return Err(e);
        },
    };
    if params.salt.len() != SALT_SIZE {
        return Err(CryptoError::KeyDerivation);
    }
    let key = derive_key(password, params.salt.as_slice());
    let r = decrypt(key.as_slice(), params.nonce.as_slice(), encrypted_data);
    proof {
        assert forall|data: Seq<u8>, salt: Seq<u8>, nonce: Seq<u8>|
            #[trigger] encrypt_outcome(data, password@, salt, nonce) == encrypted_as(
                encrypted_data@,
                metadata@,
            ) implies bytes_of(r) == bytes_ok(data) by {
            assert(metadata@ == envelope_view(salt, nonce));
            assert(params@.salt == salt && params@.nonce == nonce);
            assert(seal_outcome(key@, nonce, data) == bytes_ok(encrypted_data@));
        }
    }
    r
}

/// What `decrypt_data` returns.
pub open spec fn decrypt_json_outcome(
    sealed: Seq<u8>,
    metadata_json: Seq<char>,
    password: Seq<char>,
) -> Result<Seq<u8>, CryptoError> {
    match json_outcome(metadata_json) {
        Ok(metadata) => decrypt_outcome(sealed, metadata, password),
        Err(e) => Err(e),
    }
}

/// Metadata that cannot be read stops decryption with the reader's own
/// error: a record of an unknown version is refused as such, before salt,
/// nonce or ciphertext are looked at.
pub proof fn lemma_unreadable_metadata_stops_decryption(
    sealed: Seq<u8>,
    metadata_json: Seq<char>,
    password: Seq<char>,
)
    ensures
        json_outcome(metadata_json) is Err ==> decrypt_json_outcome(
            sealed,
            metadata_json,
            password,
        ) == bytes_err(json_outcome(metadata_json)->Err_0),
{
}

/// Decrypts a sealed payload with the JSON text of its metadata and the
/// passphrase.
///
/// Text that is not a metadata record gives `CryptoError::MetadataParse`, a
/// record of an unknown version `CryptoError::UnsupportedVersion`; what
/// follows is `decrypt_with_metadata`.
pub fn decrypt_data(encrypted_data: &[u8], metadata_json: &str, password: &str) -> (r: Result<
    Vec<u8>,
    CryptoError,
>)
    ensures
        bytes_of(r) == decrypt_json_outcome(encrypted_data@, metadata_json@, password@),
        encrypted_data@.len() < TAG_SIZE ==> r is Err,
        r is Ok ==> r->Ok_0@.len() + TAG_SIZE == encrypted_data@.len(),
{
    match EncryptionMetadata::from_json(metadata_json) {
        Ok(metadata) => decrypt_with_metadata(encrypted_data, &metadata, password),
        Err(e) => Err(e),
    }
}

} // verus!
