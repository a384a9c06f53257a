//! The envelope's metadata: what a reader needs, beside the passphrase, to
//! open a sealed payload again.
//!
//! On the wire the record is a JSON object,
//! `{"salt":"<base64>","nonce":"<base64>","version":1}`.

use vstd::prelude::*;
use vstd::string::StringExecFns;
use crate::encoding::{base64_bytes, base64_text, decimal_text};
use crate::encoding::{decode_base64, encode_base64, to_decimal};
use crate::error::CryptoError;
use crate::json::{json_string_literal, json_string_member, json_unsigned_member, option_text};
use crate::json::{json_get_string, json_get_unsigned, json_quote};

verus! {

/// The one envelope format this library writes and reads.
pub const FORMAT_VERSION: u8 = 1;

/// Salt and nonce in their text encoding, and the format version.
///
/// A value is made fresh for every encryption and read once for every
/// decryption; nothing changes it in between. Every value carries a version
/// this library knows: both ways of making one see to that.
#[derive(Debug)]
pub struct EncryptionMetadata {
    salt: String,
    nonce: String,
    version: u8,
}

/// What an `EncryptionMetadata` holds, as mathematical values.
pub struct MetadataView {
    pub salt: Seq<char>,
    pub nonce: Seq<char>,
    pub version: u8,
}

/// Salt and nonce as raw bytes, and the format version: a metadata record
/// after decoding.
#[derive(Debug, Clone)]
pub struct EnvelopeParams {
    pub salt: Vec<u8>,
    pub nonce: Vec<u8>,
    pub version: u8,
}

/// What an `EnvelopeParams` holds, as mathematical values.
pub struct ParamsView {
    pub salt: Seq<u8>,
    pub nonce: Seq<u8>,
    pub version: u8,
}

impl View for EncryptionMetadata {
    type V = MetadataView;

    closed spec fn view(&self) -> MetadataView {
        MetadataView { salt: self.salt@, nonce: self.nonce@, version: self.version }
    }
}

impl Clone for EncryptionMetadata {
    fn clone(&self) -> (copy: EncryptionMetadata)
        ensures
            copy@ == self@,
    {
        proof {
            use_type_invariant(self);
        }
        EncryptionMetadata {
            salt: self.salt.clone(),
            nonce: self.nonce.clone(),
            version: self.version,
        }
    }
}

impl View for EnvelopeParams {
    type V = ParamsView;

    open spec fn view(&self) -> ParamsView {
        ParamsView { salt: self.salt@, nonce: self.nonce@, version: self.version }
    }
}

/// The metadata that describes an encryption with this salt and this nonce.
pub open spec fn envelope_view(salt: Seq<u8>, nonce: Seq<u8>) -> MetadataView {
    MetadataView { salt: base64_text(salt), nonce: base64_text(nonce), version: FORMAT_VERSION }
}

/// What reading a record gives, from what was found under its three keys.
/// A missing or mistyped member is a parse error; after that an unknown
/// version is refused, whatever salt and nonce hold.
pub open spec fn fields_outcome(
    salt: Option<Seq<char>>,
    nonce: Option<Seq<char>>,
    version: Option<u64>,
) -> Result<MetadataView, CryptoError> {
    if salt is None || nonce is None || version is None {
        Err(CryptoError::MetadataParse)
    } else if version->Some_0 != FORMAT_VERSION {
        Err(CryptoError::UnsupportedVersion)
    } else {
        Ok(MetadataView { salt: salt->Some_0, nonce: nonce->Some_0, version: FORMAT_VERSION })
    }
}

/// A record of an unknown version is refused with
/// `CryptoError::UnsupportedVersion`, however well formed its salt and its
/// nonce are.
pub proof fn lemma_unknown_version_is_refused(salt: Seq<char>, nonce: Seq<char>, version: u64)
    requires
        version != FORMAT_VERSION,
    ensures
        fields_outcome(Some(salt), Some(nonce), Some(version)) is Err,
        fields_outcome(Some(salt), Some(nonce), Some(version))->Err_0
            == CryptoError::UnsupportedVersion,
{
}

/// What reading the JSON text of a record gives.
pub open spec fn json_outcome(text: Seq<char>) -> Result<MetadataView, CryptoError> {
    fields_outcome(
        json_string_member(text, "salt"@),
        json_string_member(text, "nonce"@),
        json_unsigned_member(text, "version"@),
    )
}

/// What decoding a record gives: both texts must be valid base64.
pub open spec fn decode_outcome(m: MetadataView) -> Result<ParamsView, CryptoError> {
    if base64_bytes(m.salt) is None || base64_bytes(m.nonce) is None {
        Err(CryptoError::MetadataParse)
    } else {
        Ok(
            ParamsView {
                salt: base64_bytes(m.salt)->Some_0,
                nonce: base64_bytes(m.nonce)->Some_0,
                version: m.version,
            },
        )
    }
}

/// What unpacking the JSON text of a record gives.
pub open spec fn unpack_outcome(text: Seq<char>) -> Result<ParamsView, CryptoError> {
    match json_outcome(text) {
        Ok(m) => decode_outcome(m),
        Err(e) => Err(e),
    }
}

/// The JSON text of a record.
pub open spec fn json_text(m: MetadataView) -> Seq<char> {
    "{\"salt\":"@ + json_string_literal(m.salt) + ",\"nonce\":"@ + json_string_literal(m.nonce)
        + ",\"version\":"@ + decimal_text(m.version) + "}"@
}

/// The view of a result that holds a record.
pub open spec fn metadata_of(r: Result<EncryptionMetadata, CryptoError>) -> Result<
    MetadataView,
    CryptoError,
> {
    match r {
        Ok(m) => Ok(m@),
        Err(e) => Err(e),
    }
}

/// The view of a result that holds decoded parameters.
pub open spec fn params_of(r: Result<EnvelopeParams, CryptoError>) -> Result<
    ParamsView,
    CryptoError,
> {
    match r {
        Ok(p) => Ok(p@),
        Err(e) => Err(e),
    }
}

impl EncryptionMetadata {
    #[verifier::type_invariant]
    spec fn known_version(&self) -> bool {
        self.version == FORMAT_VERSION
    }

    /// Describes an encryption that used this salt and this nonce, in the
    /// current format.
    pub fn new(salt: &[u8], nonce: &[u8]) -> (m: EncryptionMetadata)
        ensures
            m@ == envelope_view(salt@, nonce@),
    {
        EncryptionMetadata {
            salt: encode_base64(salt),
            nonce: encode_base64(nonce),
            version: FORMAT_VERSION,
        }
    }

    /// Builds a record from what a reader found under the keys `salt`,
    /// `nonce` and `version`; `None` stands for a member that is missing or
    /// of the wrong type.
    pub fn from_fields(salt: Option<String>, nonce: Option<String>, version: Option<u64>) -> (r:
        Result<EncryptionMetadata, CryptoError>)
        ensures
            metadata_of(r) == fields_outcome(option_text(salt), option_text(nonce), version),
    {
        match (salt, nonce, version) {
            (Some(salt), Some(nonce), Some(version)) => {
                if version != 1 {
                    Err(CryptoError::UnsupportedVersion)
                } else {
                    Ok(EncryptionMetadata { salt, nonce, version: FORMAT_VERSION })
                }
            },
            _ => Err(CryptoError::MetadataParse),
        }
    }

    /// Reads a record from its JSON text.
    pub fn from_json(text: &str) -> (r: Result<EncryptionMetadata, CryptoError>)
        ensures
            metadata_of(r) == json_outcome(text@),
    {
        let salt = json_get_string(text, "salt");
        let nonce = json_get_string(text, "nonce");
        let version = json_get_unsigned(text, "version");
        EncryptionMetadata::from_fields(salt, nonce, version)
    }

    /// Writes the record as JSON text.
    pub fn to_json(&self) -> (text: String)
        ensures
            text@ == json_text(self@),
    {
        let mut text = String::from_str("{\"salt\":");
        text.append(json_quote(self.salt.as_str()).as_str());
        text.append(",\"nonce\":");
        text.append(json_quote(self.nonce.as_str()).as_str());
        text.append(",\"version\":");
        text.append(to_decimal(self.version).as_str());
        text.append("}");
        text
    }

    /// The salt, as base64 text.
    pub fn salt(&self) -> (text: &str)
        ensures
            text@ == self@.salt,
    {
        self.salt.as_str()
    }

    /// The nonce, as base64 text.
    pub fn nonce(&self) -> (text: &str)
        ensures
            text@ == self@.nonce,
    {
        self.nonce.as_str()
    }

    /// The format version, which is always one this library knows.
    pub fn version(&self) -> (version: u8)
        ensures
            version == self@.version,
            version == FORMAT_VERSION,
    {
        proof {
            use_type_invariant(self);
        }
        self.version
    }

    /// Decodes salt and nonce to raw bytes. Text that is not valid base64
    /// gives `CryptoError::MetadataParse`.
    pub fn decode(&self) -> (r: Result<EnvelopeParams, CryptoError>)
        ensures
            params_of(r) == decode_outcome(self@),
            forall|salt: Seq<u8>, nonce: Seq<u8>|
                self@ == #[trigger] envelope_view(salt, nonce) ==> r is Ok && r->Ok_0@.salt == salt
                    && r->Ok_0@.nonce == nonce,
    {
        let salt = decode_base64(self.salt.as_str());
        let nonce = decode_base64(self.nonce.as_str());
        match (salt, nonce) {
            (Some(salt), Some(nonce)) => Ok(EnvelopeParams { salt, nonce, version: self.version }),
            _ => Err(CryptoError::MetadataParse),
        }
    }
}

/// Reads the JSON text of a record and decodes it: the whole way from the
/// wire to salt, nonce and version.
pub fn unpack(text: &str) -> (r: Result<EnvelopeParams, CryptoError>)
    ensures
        params_of(r) == unpack_outcome(text@),
{
    match EncryptionMetadata::from_json(text) {
        Ok(metadata) => metadata.decode(),
        Err(e) => Err(e),
    }
}

} // verus!
