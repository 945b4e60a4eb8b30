//! SHA-256, computed by `parity_crypto`.

use vstd::prelude::*;

verus! {

/// The SHA-256 digest of a byte string.
pub uninterp spec fn sha256_digest(data: Seq<u8>) -> Seq<u8>;

/// Calls `parity_crypto::digest::sha256` and copies the digest out.
///
/// Trusted: the result is the SHA-256 digest of `data`, a function of the
/// bytes of `data` alone, and it is 32 bytes long.
#[verifier::external_body]
pub(crate) fn sha256(data: &[u8]) -> (digest: Vec<u8>)
    ensures
        digest@ == sha256_digest(data@),
        digest@.len() == 32,
{
    parity_crypto::digest::sha256(data).to_vec()
}

} // verus!
