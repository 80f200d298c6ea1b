//! SHA-256 digests.
use crate::text;
use crate::text::to_hex;
use sha2::{Digest, Sha256};
use vstd::prelude::*;

verus! {

/// The SHA-256 digest of `data`.
pub uninterp spec fn sha256_digest(data: Seq<u8>) -> Seq<u8>;

/// Runs `sha2::Sha256` over `data` (`new`, `update`, `finalize`). Trusted: the
/// digest depends on the bytes alone, and it has 32 bytes.
#[verifier::external_body]
fn sha256(data: &[u8]) -> (digest: Vec<u8>)
    ensures
        digest@ == sha256_digest(data@),
        digest@.len() == 32,
{
    let mut hasher = Sha256::new();
    hasher.update(data);
    hasher.finalize().to_vec()
}

/// The SHA-256 digest of `data` in lower-case hexadecimal.
pub fn sha256_hex(data: &[u8]) -> (r: String)
    ensures
        r@ == text::hex(sha256_digest(data@)),
        r@.len() == 64,
{
    let digest: Vec<u8> = sha256(data);
    proof {
        text::hex_digits(digest@);
    }
    to_hex(digest.as_slice())
}

} // verus!
