use vstd::prelude::*;
use vstd::string::StringSliceAdditionalSpecFns;

verus! {

/// The SHA-256 digest of a byte sequence.
pub uninterp spec fn sha256_of(data: Seq<u8>) -> Seq<u8>;

/// Hash a byte slice with SHA-256.
///
/// Relies on `ring::digest::digest` with `SHA256`: a 32-byte digest that
/// depends on the input bytes alone.
#[verifier::external_body]
pub fn hash_sha256(data: &[u8]) -> (r: [u8; 32])
    ensures
        r@ == sha256_of(data@),
{
    let digest = ring::digest::digest(&ring::digest::SHA256, data);
    let mut result = [0u8; 32];
    result.copy_from_slice(digest.as_ref());
    result
}

/// Hash the UTF-8 bytes of a string with SHA-256.
pub fn hash_string(s: &str) -> (r: [u8; 32])
    ensures
        r@ == sha256_of(s.spec_bytes()),
{
    hash_sha256(s.as_bytes())
}

} // verus!
