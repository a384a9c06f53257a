//! What the program takes from its surroundings when an account or a stored
//! file is new: the time, and a fresh random identifier.

use vstd::prelude::*;

verus! {

/// Length of a UUID in its hyphenated text form.
pub const UUID_TEXT_LEN: usize = 36;

/// Calls `Utc::now` of `chrono` and `DateTime::timestamp` on it: the seconds
/// since the Unix epoch. Nothing is claimed of the number.
#[verifier::external_body]
pub(crate) fn unix_now() -> (seconds: i64) {
    chrono::Utc::now().timestamp()
}

/// Calls `Uuid::new_v4` of `uuid` and formats it with `to_string`.
///
/// Trusted: the hyphenated form has 36 characters. Nothing is claimed of
/// which; they differ from call to call.
#[verifier::external_body]
pub(crate) fn random_uuid_text() -> (text: String)
    ensures
        text@.len() == UUID_TEXT_LEN,
{
    uuid::Uuid::new_v4().to_string()
}

} // verus!
