//! The two random sources the library draws from.

use vstd::prelude::*;
use aes_gcm::aead::OsRng;
use rand::RngCore;

verus! {

/// Calls `RngCore::fill_bytes` on `OsRng`, the operating system's generator,
/// for a fresh buffer of `count` bytes.
///
/// Trusted: the buffer that comes back has `count` bytes. Nothing is claimed
/// of their values, which differ from call to call.
#[verifier::external_body]
pub(crate) fn os_random_bytes(count: usize) -> (bytes: Vec<u8>)
    ensures
        bytes@.len() == count,
{
    let mut bytes = vec![0u8; count];
    OsRng.fill_bytes(&mut bytes);
    bytes
}

/// Calls `RngCore::next_u32` on `rand::thread_rng()`. Nothing is claimed of
/// the number that comes back.
#[verifier::external_body]
pub(crate) fn thread_random_u32() -> (draw: u32) {
    rand::thread_rng().next_u32()
}

} // verus!
