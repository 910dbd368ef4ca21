//! Random bytes from the operating system.

use vstd::prelude::*;
use rand::RngCore;
use rand::rngs::OsRng;

verus! {

/// Calls `OsRng::try_fill_bytes` on a buffer of sixteen bytes and hands the
/// buffer out when the call succeeded. The bytes are random, so only their
/// number is claimed; `None` means that the system's random source
/// failed.
#[verifier::external_body]
pub(crate) fn random_bytes() -> (r: Option<Vec<u8>>)
    ensures
        r matches Some(bytes) ==> bytes@.len() == 16,
{
    let mut bytes = [0u8; 16];
    match OsRng.try_fill_bytes(&mut bytes) {
        Ok(()) => Some(bytes.to_vec()),
        Err(_) => None,
    }
}

} // verus!
