//! The failures an envelope operation can report.

use vstd::prelude::*;
use vstd::string::StringExecFns;

verus! {

/// Why an envelope operation failed. No operation returns partial output
/// together with one of these.
#[derive(Debug, Clone, Copy, PartialEq, Eq, Structural, Hash)]
pub enum CryptoError {
    /// The salt handed to key derivation does not have `SALT_SIZE` bytes.
    KeyDerivation,
    /// The cipher rejected the key because of its length.
    CipherInit,
    /// The cipher could not seal the payload.
    Encryption,
    /// The cipher could not open the payload. One kind covers a wrong
    /// passphrase, a changed ciphertext or tag, a wrong nonce and a truncated
    /// input, so that a caller cannot tell which check failed.
    Decryption,
    /// The metadata record is not JSON of the expected shape, or a field in
    /// it is not valid base64.
    MetadataParse,
    /// The metadata record names a format version this library does not know.
    UnsupportedVersion,
}

impl CryptoError {
    /// The text that `message` returns for each kind.
    pub open spec fn message_text(self) -> Seq<char> {
        match self {
            CryptoError::KeyDerivation => "Key derivation failed: invalid salt length"@,
            CryptoError::CipherInit => "Error creating cipher: invalid key length"@,
            CryptoError::Encryption => "Encryption failed"@,
            CryptoError::Decryption => "Decryption failed. Invalid password or corrupted data."@,
            CryptoError::MetadataParse => "Error parsing metadata"@,
            CryptoError::UnsupportedVersion => "Unsupported metadata version"@,
        }
    }

    /// A sentence for a person, one per kind.
    pub fn message(&self) -> (text: String)
        ensures
            text@ == self.message_text(),
    {
        match self {
            CryptoError::KeyDerivation => String::from_str(
                "Key derivation failed: invalid salt length",
            ),
            CryptoError::CipherInit => String::from_str("Error creating cipher: invalid key length"),
            CryptoError::Encryption => String::from_str("Encryption failed"),
            CryptoError::Decryption => String::from_str(
                "Decryption failed. Invalid password or corrupted data.",
            ),
            CryptoError::MetadataParse => String::from_str("Error parsing metadata"),
            CryptoError::UnsupportedVersion => String::from_str("Unsupported metadata version"),
        }
    }
}

} // verus!
