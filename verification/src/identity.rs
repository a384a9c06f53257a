//! Callers as the identity provider knows them, and the ways in which asking
//! the provider can fail.

use vstd::prelude::*;
use vstd::string::StringExecFns;

verus! {

/// A user record of the identity provider.
#[derive(Debug, Clone)]
pub struct FirebaseUser {
    pub uid: String,
    pub email: String,
    pub email_verified: bool,
    pub display_name: Option<String>,
    pub photo_url: Option<String>,
    pub disabled: bool,
}

/// A caller whose identity token the provider verified.
#[derive(Debug, Clone)]
pub struct FirebaseAuthUser(pub FirebaseUser);

/// Why the identity provider could not name the caller.
#[derive(Debug, Clone, Copy, PartialEq, Eq, Structural)]
pub enum FirebaseAuthError {
    InvalidToken,
    UserNotFound,
    InternalError,
}

/// Why the storage provider could not do what was asked.
#[derive(Debug, Clone, Copy, PartialEq, Eq, Structural)]
pub enum FirebaseStorageError {
    UploadFailed,
    FileNotFound,
    InvalidUrl,
    InternalError,
}

impl FirebaseUser {
    /// A user record from what the provider reports. The provider leaves out
    /// what it does not know: a missing email address reads as empty, a
    /// missing flag as `false`.
    pub fn from_record(
        uid: String,
        email: Option<String>,
        email_verified: Option<bool>,
        display_name: Option<String>,
        photo_url: Option<String>,
        disabled: Option<bool>,
    ) -> (user: FirebaseUser)
        ensures
            user.uid == uid,
            user.email@ == (match email {
                Some(email) => email@,
                None => Seq::empty(),
            }),
            user.email_verified == (email_verified == Some(true)),
            user.display_name == display_name,
            user.photo_url == photo_url,
            user.disabled == (disabled == Some(true)),
    {
        let email = match email {
            Some(email) => email,
            None => String::new(),
        };
        let email_verified = match email_verified {
            Some(flag) => flag,
            None => false,
        };
        let disabled = match disabled {
            Some(flag) => flag,
            None => false,
        };
        FirebaseUser { uid, email, email_verified, display_name, photo_url, disabled }
    }
}

impl FirebaseAuthError {
    /// The text that `message` returns for each kind.
    pub open spec fn message_text(self) -> Seq<char> {
        match self {
            FirebaseAuthError::InvalidToken => "Invalid Firebase token"@,
            FirebaseAuthError::UserNotFound => "User not found"@,
            FirebaseAuthError::InternalError => "Internal Firebase auth error"@,
        }
    }

    /// The HTTP status that `status_code` returns for each kind.
    pub open spec fn status(self) -> u16 {
        match self {
            FirebaseAuthError::InvalidToken => 401,
            FirebaseAuthError::UserNotFound => 404,
            FirebaseAuthError::InternalError => 500,
        }
    }

    /// A sentence for a person, one per kind.
    pub fn message(&self) -> (text: String)
        ensures
            text@ == self.message_text(),
    {
        match self {
            FirebaseAuthError::InvalidToken => String::from_str("Invalid Firebase token"),
            FirebaseAuthError::UserNotFound => String::from_str("User not found"),
            FirebaseAuthError::InternalError => String::from_str("Internal Firebase auth error"),
        }
    }

    /// The HTTP status to answer with: unauthorized, not found, or internal
    /// server error.
    pub fn status_code(&self) -> (code: u16)
        ensures
            code == self.status(),
    {
        match self {
            FirebaseAuthError::InvalidToken => 401,
            FirebaseAuthError::UserNotFound => 404,
            FirebaseAuthError::InternalError => 500,
        }
    }
}

impl FirebaseStorageError {
    /// The text that `message` returns for each kind.
    pub open spec fn message_text(self) -> Seq<char> {
        match self {
            FirebaseStorageError::UploadFailed => "Failed to upload file to Firebase Storage"@,
            FirebaseStorageError::FileNotFound => "File not found in Firebase Storage"@,
            FirebaseStorageError::InvalidUrl => "Invalid Firebase Storage URL"@,
            FirebaseStorageError::InternalError => "Internal Firebase Storage error"@,
        }
    }

    /// The HTTP status that `status_code` returns for each kind.
    pub open spec fn status(self) -> u16 {
        match self {
            FirebaseStorageError::UploadFailed => 400,
            FirebaseStorageError::FileNotFound => 404,
            FirebaseStorageError::InvalidUrl => 400,
            FirebaseStorageError::InternalError => 500,
        }
    }

    /// A sentence for a person, one per kind.
    pub fn message(&self) -> (text: String)
        ensures
            text@ == self.message_text(),
    {
        match self {
            FirebaseStorageError::UploadFailed => String::from_str(
                "Failed to upload file to Firebase Storage",
            ),
            FirebaseStorageError::FileNotFound => String::from_str(
                "File not found in Firebase Storage",
            ),
            FirebaseStorageError::InvalidUrl => String::from_str("Invalid Firebase Storage URL"),
            FirebaseStorageError::InternalError => String::from_str(
                "Internal Firebase Storage error",
            ),
        }
    }

    /// The HTTP status to answer with: bad request, not found, or internal
    /// server error.
    pub fn status_code(&self) -> (code: u16)
        ensures
            code == self.status(),
    {
        match self {
            FirebaseStorageError::UploadFailed => 400,
            FirebaseStorageError::FileNotFound => 404,
            FirebaseStorageError::InvalidUrl => 400,
            FirebaseStorageError::InternalError => 500,
        }
    }
}

} // verus!
