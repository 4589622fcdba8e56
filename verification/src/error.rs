//! The failures that the scheme reports.

use vstd::prelude::*;

verus! {

/// Why an operation of the scheme was refused.
#[derive(Debug, Clone, Copy, PartialEq, Eq, Structural)]
pub enum EciesError {
    /// A public key handed to key agreement or to verification is not the
    /// SEC1 encoding of a point of the curve other than the identity.
    InvalidPoint,
    /// More output was asked of the key derivation than it can expand.
    KdfExpansionError,
    /// The integrity tag does not match the key, the nonce and the ciphertext.
    AuthenticationFailure,
    /// The signature bytes are not two scalars in range, or the signer could
    /// form no signature that is.
    MalformedSignature,
    /// The signature is well formed but not one by the claimed signer over
    /// the bytes at hand.
    SignatureVerificationFailed,
    /// The cipher refused its input: a key or nonce of the wrong size, or a
    /// plaintext longer than the cipher admits.
    EncryptionFailure,
}

/// A fallible result with every value replaced by its view.
pub open spec fn view_result<T: View>(r: Result<T, EciesError>) -> Result<T::V, EciesError> {
    match r {
        Ok(v) => Ok(v@),
        Err(e) => Err(e),
    }
}

} // verus!
