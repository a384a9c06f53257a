//! Accounts, and the shapes in which requests and responses carry them.

use vstd::prelude::*;
use vstd::std_specs::convert::FromSpecImpl;
use crate::ambient::{random_uuid_text, unix_now, UUID_TEXT_LEN};

verus! {

/// A registered account.
#[derive(Debug, Clone)]
pub struct User {
    pub id: String,
    pub email: String,
    /// The stored hash of the password, never the password; it is left out
    /// of every response.
    pub password_hash: String,
    pub created_at: i64,
    pub updated_at: i64,
}

/// What a caller sends to register.
#[derive(Debug, Clone)]
pub struct UserRegistration {
    pub email: String,
    pub password: String,
}

/// What a caller sends to log in.
#[derive(Debug, Clone)]
pub struct UserLogin {
    pub email: String,
    pub password: String,
}

/// An account as a response shows it: without the password hash.
#[derive(Debug, Clone)]
pub struct UserResponse {
    pub id: String,
    pub email: String,
    pub created_at: i64,
}

impl User {
    /// An account created at `now` under the identifier `id`.
    pub fn with_identity(id: String, email: String, password_hash: String, now: i64) -> (user: User)
        ensures
            user.id == id,
            user.email == email,
            user.password_hash == password_hash,
            user.created_at == now,
            user.updated_at == now,
    {
        User { id, email, password_hash, created_at: now, updated_at: now }
    }

    /// An account created now, under a fresh random identifier.
    pub fn new(email: String, password_hash: String) -> (user: User)
        ensures
            user.email == email,
            user.password_hash == password_hash,
            user.updated_at == user.created_at,
            user.id@.len() == UUID_TEXT_LEN,
    {
        let now = unix_now();
        User::with_identity(random_uuid_text(), email, password_hash, now)
    }
}

impl From<User> for UserResponse {
    fn from(user: User) -> (response: UserResponse) {
        UserResponse { id: user.id, email: user.email, created_at: user.created_at }
    }
}

impl FromSpecImpl<User> for UserResponse {
    open spec fn obeys_from_spec() -> bool {
        true
    }

    open spec fn from_spec(user: User) -> UserResponse {
        UserResponse { id: user.id, email: user.email, created_at: user.created_at }
    }
}

} // verus!
