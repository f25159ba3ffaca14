//! Random bytes from the operating system.

use vstd::prelude::*;
use aes_gcm::aead::rand_core::RngCore;
use aes_gcm::aead::OsRng;

verus! {

/// `RngCore::try_fill_bytes` of `OsRng`, on a buffer of `count` bytes.
///
/// Taken on trust: where the operating system gives random bytes, there are
/// `count` of them. Nothing is known of what they are, and nothing is promised
/// where the system gives none.
#[verifier::external_body]
pub(crate) fn random_bytes(count: usize) -> (r: Option<Vec<u8>>)
    ensures
        r is Some ==> r.unwrap()@.len() == count,
{
    let mut out = vec![0u8; count];
    match OsRng.try_fill_bytes(&mut out) {
        Ok(()) => Some(out),
        Err(_) => None,
    }
}

} // verus!
