//! The claims a session token carries.

use vstd::prelude::*;
use crate::models::User;

verus! {

/// How long a token stays valid after it is issued: seven days, in seconds.
pub const TOKEN_LIFETIME_SECS: usize = 604_800;

/// The claims of a session token.
#[derive(Debug, Clone)]
pub struct Claims {
    /// The account's identifier.
    pub sub: String,
    /// The account's email address.
    pub email: String,
    /// When the token expires, in seconds since the Unix epoch.
    pub exp: usize,
    /// When the token was issued, in seconds since the Unix epoch.
    pub iat: usize,
}

/// A caller whose session token was verified.
#[derive(Debug, Clone)]
pub struct AuthenticatedUser(pub Claims);

impl Claims {
    /// The claims of a token issued to `user` at `now`: it names the account
    /// and expires `TOKEN_LIFETIME_SECS` later.
    pub fn issue(user: &User, now: usize) -> (claims: Claims)
        requires
            now + TOKEN_LIFETIME_SECS <= usize::MAX,
        ensures
            claims.sub@ == user.id@,
            claims.email@ == user.email@,
            claims.iat == now,
            claims.exp == now + TOKEN_LIFETIME_SECS,
    {
        Claims {
            sub: user.id.clone(),
            email: user.email.clone(),
            exp: now + TOKEN_LIFETIME_SECS,
            iat: now,
        }
    }
}

} // verus!
