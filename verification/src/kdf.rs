//! Key derivation: HKDF with SHA-256, no salt, no context info.
//!
//! The raw output of key agreement is not uniformly random and is never used
//! as a cipher key; it passes through this step first.

use vstd::prelude::*;
use crate::error::view_result;
use crate::error::EciesError;

verus! {

/// Output length in bytes of SHA-256.
pub const HASH_LEN: usize = 32;

/// The most that HKDF expands to: 255 blocks of the hash's output.
pub const MAX_OUTPUT_LEN: usize = 255 * HASH_LEN;

/// The output keying material of HKDF-SHA256, extracted from `ikm` without
/// salt and expanded without info to `len` bytes, as `hkdf` computes it.
pub uninterp spec fn hkdf_sha256(ikm: Seq<u8>, len: nat) -> Seq<u8>;

/// The error of `hkdf` for an output that is too long.
#[verifier::external_type_specification]
#[verifier::external_body]
pub struct ExInvalidLength(hkdf::InvalidLength);

/// `Hkdf::<Sha256>::new` with no salt, then `Hkdf::expand` with empty info,
/// of `hkdf`, into a buffer of `len` bytes.
///
/// Assumed: up to 255 blocks the expansion succeeds, fills the whole buffer,
/// and the bytes are a function of the input keying material and the length.
#[verifier::external_body]
fn hkdf_expand(ikm: &[u8], len: usize) -> (r: Result<Vec<u8>, hkdf::InvalidLength>)
    requires
        len <= MAX_OUTPUT_LEN,
    ensures
        r is Ok,
        r matches Ok(okm) ==> okm@ == hkdf_sha256(ikm@, len as nat) && okm@.len() == len,
{
    let mut okm = vec![0u8; len];
    hkdf::Hkdf::<sha2::Sha256>::new(None, ikm).expand(&[], &mut okm)?;
    Ok(okm)
}

/// What key derivation yields: the expansion to `output_len` bytes, or
/// `KdfExpansionError` beyond 255 blocks.
pub open spec fn derive_key_spec(shared_secret: Seq<u8>, output_len: nat) -> Result<
    Seq<u8>,
    EciesError,
> {
    if output_len <= MAX_OUTPUT_LEN {
        Ok(hkdf_sha256(shared_secret, output_len))
    } else {
        Err(EciesError::KdfExpansionError)
    }
}

/// Expands a shared secret into `output_len` bytes of key material.
///
/// A request beyond the expansion bound is refused, never cut short.
pub fn derive_key(shared_secret: &[u8], output_len: usize) -> (r: Result<Vec<u8>, EciesError>)
    ensures
        view_result(r) == derive_key_spec(shared_secret@, output_len as nat),
        r matches Ok(key) ==> key@.len() == output_len,
{
    if output_len > MAX_OUTPUT_LEN {
        return Err(EciesError::KdfExpansionError);
    }
    match hkdf_expand(shared_secret, output_len) {
        Ok(okm) => Ok(okm),
        Err(_) => Err(EciesError::KdfExpansionError),
    }
}

/// Key derivation is deterministic: on the same shared secret and the same
/// length, any two results that meet the contract of `derive_key` are equal.
pub proof fn lemma_derive_key_deterministic(
    shared_secret: Seq<u8>,
    output_len: nat,
    first: Result<Seq<u8>, EciesError>,
    second: Result<Seq<u8>, EciesError>,
)
    requires
        first == derive_key_spec(shared_secret, output_len),
        second == derive_key_spec(shared_secret, output_len),
    ensures
        first == second,
{
}

} // verus!
