//! Signing and verifying: ECDSA over secp256k1 with SHA-256.
//!
//! What is signed is always the ciphertext, bit for bit as it is sent, never
//! the plaintext.

use vstd::prelude::*;
use vstd::slice::slice_to_vec;
use k256::ecdsa::signature::Signer;
use k256::ecdsa::signature::Verifier;
use crate::error::view_result;
use crate::error::EciesError;
use crate::keys::key_pair_valid;
use crate::keys::public_key_of;
use crate::keys::sec1_point_valid;
use crate::keys::KeyPairView;
use crate::keys::PublicKey;
use crate::keys::SecretKey;
use crate::scalar::scalar_valid;
use crate::scalar::SCALAR_LEN;

verus! {

/// Length in bytes of a signature: two scalars.
pub const SIGNATURE_LEN: usize = 2 * SCALAR_LEN;

/// A signature is two scalars in range, `r` then `s`, each 32 bytes
/// big-endian.
pub open spec fn signature_well_formed(bytes: Seq<u8>) -> bool {
    &&& bytes.len() == SIGNATURE_LEN
    &&& scalar_valid(bytes.subrange(0, SCALAR_LEN as int))
    &&& scalar_valid(bytes.subrange(SCALAR_LEN as int, SIGNATURE_LEN as int))
}

/// The signature that `k256` makes with a secret key over a message, or
/// `None` where it reports that it could make none.
pub uninterp spec fn ecdsa_signature(secret: Seq<u8>, message: Seq<u8>) -> Option<Seq<u8>>;

/// Whether `k256` accepts a signature over a message under a public key.
pub uninterp spec fn ecdsa_verifies(public: Seq<u8>, message: Seq<u8>, signature: Seq<u8>) -> bool;

/// The error of `k256::ecdsa`, for signing, decoding and verifying alike.
#[verifier::external_type_specification]
#[verifier::external_body]
pub struct ExSignatureError(k256::ecdsa::Error);

/// `Signer::try_sign` of `k256::ecdsa::SigningKey`, on a key made with
/// `SigningKey::from`, then `Signature::to_bytes`.
///
/// Assumed: the nonce is derived from key and message (RFC 6979), so the
/// outcome is a function of the two; a signature that comes back is well
/// formed; and, as the example in the documentation of `k256::ecdsa` shows,
/// it verifies under the public key of the signing key.
#[verifier::external_body]
fn ecdsa_sign(secret: &[u8], message: &[u8]) -> (r: Result<Vec<u8>, k256::ecdsa::Error>)
    requires
        scalar_valid(secret@),
    ensures
        match ecdsa_signature(secret@, message@) {
            Some(signature) => r matches Ok(bytes) && bytes@ == signature,
            None => r is Err,
        },
        r matches Ok(bytes) ==> {
            &&& signature_well_formed(bytes@)
            &&& ecdsa_verifies(public_key_of(secret@), message@, bytes@)
        },
{
    let key = k256::SecretKey::from_slice(secret).expect("scalar in range");
    let signature: k256::ecdsa::Signature = k256::ecdsa::SigningKey::from(key).try_sign(message)?;
    Ok(signature.to_bytes().to_vec())
}

/// `Signature::from_slice` of `ecdsa` for secp256k1.
///
/// Assumed: it accepts exactly 64 bytes whose halves are scalars in range.
#[verifier::external_body]
fn signature_parses(bytes: &[u8]) -> (r: Result<(), k256::ecdsa::Error>)
    ensures
        r is Ok <==> signature_well_formed(bytes@),
{
    k256::ecdsa::Signature::from_slice(bytes).map(|_| ())
}

/// `Verifier::verify` of `k256::ecdsa::VerifyingKey`, on a key made with
/// `VerifyingKey::from` and a signature decoded with `Signature::from_slice`.
///
/// Assumed: whether it accepts is a function of key, message and signature.
#[verifier::external_body]
fn ecdsa_verify(public: &[u8], message: &[u8], signature: &[u8]) -> (r: Result<
    (),
    k256::ecdsa::Error,
>)
    requires
        sec1_point_valid(public@),
        signature_well_formed(signature@),
    ensures
        r is Ok <==> ecdsa_verifies(public@, message@, signature@),
{
    let key = k256::PublicKey::from_sec1_bytes(public).expect("point of the curve");
    let signature = k256::ecdsa::Signature::from_slice(signature).expect("scalars in range");
    k256::ecdsa::VerifyingKey::from(key).verify(message, &signature)
}

/// A signature as received: bytes that may or may not be well formed.
#[derive(Debug, PartialEq, Eq)]
pub struct Signature {
    pub bytes: Vec<u8>,
}

impl View for Signature {
    type V = Seq<u8>;

    open spec fn view(&self) -> Seq<u8> {
        self.bytes@
    }
}

impl Clone for Signature {
    fn clone(&self) -> (r: Signature)
        ensures
            r@ == self@,
    {
        Signature { bytes: slice_to_vec(self.bytes.as_slice()) }
    }
}

/// What signing yields: the signature, or `MalformedSignature` where the
/// signer could form none.
pub open spec fn sign_spec(secret: Seq<u8>, message: Seq<u8>) -> Result<Seq<u8>, EciesError> {
    match ecdsa_signature(secret, message) {
        Some(signature) => Ok(signature),
        None => Err(EciesError::MalformedSignature),
    }
}

/// What verification yields. Malformed signature bytes are an error, and so
/// is a public key that is no point of the curve; a well-formed signature
/// that does not match is `Ok(false)`.
pub open spec fn verify_spec(public: Seq<u8>, message: Seq<u8>, signature: Seq<u8>) -> Result<
    bool,
    EciesError,
> {
    if !signature_well_formed(signature) {
        Err(EciesError::MalformedSignature)
    } else if !sec1_point_valid(public) {
        Err(EciesError::InvalidPoint)
    } else {
        Ok(ecdsa_verifies(public, message, signature))
    }
}

/// Signs a message with an identity secret key.
///
/// A signature that comes back verifies, over the same message, under the
/// public key of the signer's key pair.
pub fn sign_message(secret_key: &SecretKey, message: &[u8]) -> (r: Result<Signature, EciesError>)
    ensures
        secret_key.wf(),
        view_result(r) == sign_spec(secret_key@, message@),
        r matches Ok(signature) ==> forall|signer: KeyPairView| #[trigger]
            key_pair_valid(signer) && signer.secret_key == secret_key@ ==> verify_spec(
                signer.public_key,
                message@,
                signature@,
            ) == Ok::<bool, EciesError>(true),
{
    let secret = secret_key.as_bytes();
    match ecdsa_sign(secret, message) {
        Ok(bytes) => Ok(Signature { bytes }),
        Err(_) => Err(EciesError::MalformedSignature),
    }
}

/// Checks a signature over a message against a claimed signer's public key.
pub fn verify_signature(pubkey: &PublicKey, message: &[u8], signature: &Signature) -> (r: Result<
    bool,
    EciesError,
>)
    ensures
        r == verify_spec(pubkey@, message@, signature@),
{
    if signature_parses(signature.bytes.as_slice()).is_err() {
        return Err(EciesError::MalformedSignature);
    }
    if pubkey.validate().is_err() {
        return Err(EciesError::InvalidPoint);
    }
    match ecdsa_verify(pubkey.bytes.as_slice(), message, signature.bytes.as_slice()) {
        Ok(()) => Ok(true),
        Err(_) => Ok(false),
    }
}

} // verus!
