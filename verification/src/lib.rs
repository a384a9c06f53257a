//! Password-based authenticated encryption with a self-describing envelope.
//!
//! A payload is sealed with AES-256-GCM under a key that PBKDF2-HMAC-SHA256
//! derives from a passphrase and a fresh random salt. The salt, the nonce and
//! a format version travel beside the ciphertext as a small JSON record, so
//! that the same passphrase opens the payload again later.
//!
//! The cryptographic primitives, the random source, base64 and JSON come from
//! established crates. Each call into them stands in one small function whose
//! contract is taken on trust; everything around those calls is verified.

pub mod error;
pub mod cipher;
pub mod kdf;
pub mod random;
pub mod encoding;
pub mod json;
pub mod metadata;
pub mod envelope;
pub mod password;
pub mod filename;
pub mod ambient;
pub mod models;
pub mod claims;
pub mod identity;
pub mod storage;
pub mod accounts;
pub mod config;

pub use envelope::{decrypt_data, decrypt_with_metadata, encrypt_data, encrypt_with, EncryptedData};
pub use error::CryptoError;
pub use filename::get_file_extension;
pub use kdf::derive_key;
pub use metadata::EncryptionMetadata;
pub use password::{generate_secure_password, hash_password};
