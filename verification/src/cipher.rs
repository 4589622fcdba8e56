//! Authenticated encryption: AES-256-GCM with a 96-bit nonce and no
//! associated data.

use vstd::prelude::*;
use vstd::slice::slice_to_vec;
use aes_gcm::aead::generic_array::GenericArray;
use aes_gcm::aead::Aead;
use aes_gcm::aead::AeadCore;
use aes_gcm::KeyInit;
use crate::error::view_result;
use crate::error::EciesError;
use crate::kdf::derive_key;
use crate::kdf::hkdf_sha256;
use crate::keys::SharedSecret;

verus! {

/// Length in bytes of a cipher key.
pub const KEY_LEN: usize = 32;

/// Length in bytes of a nonce.
pub const NONCE_LEN: usize = 12;

/// Length in bytes of the integrity tag that ends a ciphertext.
pub const TAG_LEN: usize = 16;

/// The longest plaintext that the cipher admits, in bytes: 2 to the 36th.
pub const MAX_PLAINTEXT_LEN: u64 = 0x10_0000_0000;

/// The ciphertext, tag included, that `aes-gcm` produces.
pub uninterp spec fn aes256gcm_seal(key: Seq<u8>, nonce: Seq<u8>, plaintext: Seq<u8>) -> Seq<u8>;

/// The plaintext that `aes-gcm` recovers, or `None` where it rejects the tag.
pub uninterp spec fn aes256gcm_open(key: Seq<u8>, nonce: Seq<u8>, ciphertext: Seq<u8>) -> Option<
    Seq<u8>,
>;

/// The error of `aes-gcm`: deliberately opaque, the same for every cause.
#[verifier::external_type_specification]
#[verifier::external_body]
pub struct ExAeadError(aes_gcm::Error);

/// `Aead::encrypt` of `Aes256Gcm`, on a cipher made with `KeyInit::new`.
///
/// Assumed: it fails exactly on a plaintext over the cipher's limit (`P_MAX`);
/// the ciphertext is a function of key, nonce and plaintext; it is the
/// plaintext's length plus the tag; and, as the usage example of `aes-gcm`
/// shows, decryption under the same key and nonce gives the plaintext back.
#[allow(deprecated)]
#[verifier::external_body]
fn aes_gcm_encrypt(key: &[u8], nonce: &[u8], plaintext: &[u8]) -> (r: Result<
    Vec<u8>,
    aes_gcm::Error,
>)
    requires
        key@.len() == KEY_LEN,
        nonce@.len() == NONCE_LEN,
    ensures
        r is Ok <==> plaintext@.len() <= MAX_PLAINTEXT_LEN,
        r matches Ok(ciphertext) ==> {
            &&& ciphertext@ == aes256gcm_seal(key@, nonce@, plaintext@)
            &&& ciphertext@.len() == plaintext@.len() + TAG_LEN
            &&& aes256gcm_open(key@, nonce@, ciphertext@) == Some(plaintext@)
        },
{
    let cipher = aes_gcm::Aes256Gcm::new(GenericArray::from_slice(key));
    cipher.encrypt(GenericArray::from_slice(nonce), plaintext)
}

/// `Aead::decrypt` of `Aes256Gcm`, on a cipher made with `KeyInit::new`.
///
/// Assumed: whether it succeeds, and with which plaintext, is a function of
/// key, nonce and ciphertext.
#[allow(deprecated)]
#[verifier::external_body]
fn aes_gcm_decrypt(key: &[u8], nonce: &[u8], ciphertext: &[u8]) -> (r: Result<
    Vec<u8>,
    aes_gcm::Error,
>)
    requires
        key@.len() == KEY_LEN,
        nonce@.len() == NONCE_LEN,
    ensures
        match aes256gcm_open(key@, nonce@, ciphertext@) {
            Some(plaintext) => r matches Ok(bytes) && bytes@ == plaintext,
            None => r is Err,
        },
{
    let cipher = aes_gcm::Aes256Gcm::new(GenericArray::from_slice(key));
    cipher.decrypt(GenericArray::from_slice(nonce), ciphertext)
}

/// `AeadCore::generate_nonce` of `Aes256Gcm`, drawing from `OsRng`.
///
/// Assumed: whatever the generator yields, twelve bytes come back. `OsRng`
/// panics if the operating system fails to give randomness.
#[verifier::external_body]
fn random_nonce() -> (r: Vec<u8>)
    ensures
        r@.len() == NONCE_LEN,
{
    aes_gcm::Aes256Gcm::generate_nonce(&mut rand_core::OsRng).to_vec()
}

/// A key for the cipher, derived from a shared secret and used for one
/// message.
pub struct SymmetricKey {
    pub bytes: Vec<u8>,
}

impl View for SymmetricKey {
    type V = Seq<u8>;

    open spec fn view(&self) -> Seq<u8> {
        self.bytes@
    }
}

impl Clone for SymmetricKey {
    fn clone(&self) -> (r: SymmetricKey)
        ensures
            r@ == self@,
    {
        SymmetricKey { bytes: slice_to_vec(self.bytes.as_slice()) }
    }
}

/// A nonce: public, but never used twice with one key.
#[derive(Debug, PartialEq, Eq)]
pub struct Nonce {
    pub bytes: Vec<u8>,
}

impl View for Nonce {
    type V = Seq<u8>;

    open spec fn view(&self) -> Seq<u8> {
        self.bytes@
    }
}

impl Clone for Nonce {
    fn clone(&self) -> (r: Nonce)
        ensures
            r@ == self@,
    {
        Nonce { bytes: slice_to_vec(self.bytes.as_slice()) }
    }
}

/// What encryption yields: the sealed bytes, or `EncryptionFailure` where the
/// cipher's preconditions on sizes do not hold.
pub open spec fn encrypt_spec(key: Seq<u8>, nonce: Seq<u8>, plaintext: Seq<u8>) -> Result<
    Seq<u8>,
    EciesError,
> {
    if key.len() == KEY_LEN && nonce.len() == NONCE_LEN && plaintext.len() <= MAX_PLAINTEXT_LEN {
        Ok(aes256gcm_seal(key, nonce, plaintext))
    } else {
        Err(EciesError::EncryptionFailure)
    }
}

/// What decryption yields: the plaintext, or `AuthenticationFailure` for
/// everything that the cipher does not accept, a key or nonce of the wrong
/// size included.
pub open spec fn decrypt_spec(key: Seq<u8>, nonce: Seq<u8>, ciphertext: Seq<u8>) -> Result<
    Seq<u8>,
    EciesError,
> {
    if key.len() == KEY_LEN && nonce.len() == NONCE_LEN {
        match aes256gcm_open(key, nonce, ciphertext) {
            Some(plaintext) => Ok(plaintext),
            None => Err(EciesError::AuthenticationFailure),
        }
    } else {
        Err(EciesError::AuthenticationFailure)
    }
}

/// Decryption fails in one way only. A wrong key, a wrong nonce, a changed
/// ciphertext and a key or nonce of the wrong size all give
/// `AuthenticationFailure`, and no plaintext.
pub proof fn lemma_decrypt_fails_in_one_way(key: Seq<u8>, nonce: Seq<u8>, ciphertext: Seq<u8>)
    ensures
        decrypt_spec(key, nonce, ciphertext) matches Err(e) ==> e
            == EciesError::AuthenticationFailure,
{
}

/// The cipher key that belongs to a shared secret: 32 bytes of key
/// derivation.
pub fn derive_symmetric_key(diffie_secret: &SharedSecret) -> (r: SymmetricKey)
    ensures
        r@ == hkdf_sha256(diffie_secret@, KEY_LEN as nat),
        r@.len() == KEY_LEN,
{
    let bytes = derive_key(diffie_secret.raw_secret_bytes(), KEY_LEN).unwrap();
    SymmetricKey { bytes }
}

/// Draws a fresh nonce from the operating system's randomness.
pub fn generate_nonce() -> (r: Nonce)
    ensures
        r@.len() == NONCE_LEN,
{
    Nonce { bytes: random_nonce() }
}

/// The cipher key for a shared secret, and a fresh nonce to use with it.
pub fn generate_cipher(diffie_secret: &SharedSecret) -> (r: (SymmetricKey, Nonce))
    ensures
        r.0@ == hkdf_sha256(diffie_secret@, KEY_LEN as nat),
        r.0@.len() == KEY_LEN,
        r.1@.len() == NONCE_LEN,
{
    let key = derive_symmetric_key(diffie_secret);
    let nonce = generate_nonce();
    (key, nonce)
}

/// Encrypts a message and appends the integrity tag.
///
/// On success the ciphertext decrypts, under the same key and nonce, to the
/// message.
pub fn encrypt_message_with_cipher(message: &[u8], cipher: &SymmetricKey, nonce: &Nonce) -> (r:
    Result<Vec<u8>, EciesError>)
    ensures
        view_result(r) == encrypt_spec(cipher@, nonce@, message@),
        r matches Ok(ciphertext) ==> {
            &&& ciphertext@.len() == message@.len() + TAG_LEN
            &&& decrypt_spec(cipher@, nonce@, ciphertext@) == Ok::<Seq<u8>, EciesError>(message@)
        },
{
    if cipher.bytes.len() != KEY_LEN || nonce.bytes.len() != NONCE_LEN {
        return Err(EciesError::EncryptionFailure);
    }
    match aes_gcm_encrypt(cipher.bytes.as_slice(), nonce.bytes.as_slice(), message) {
        Ok(ciphertext) => Ok(ciphertext),
        Err(_) => Err(EciesError::EncryptionFailure),
    }
}

/// Decrypts a ciphertext after checking its tag. Whatever is wrong, the
/// failure is the same and no plaintext is returned.
pub fn decrypt_message(nonce: &Nonce, cipher: &SymmetricKey, ciphertext: &[u8]) -> (r: Result<
    Vec<u8>,
    EciesError,
>)
    ensures
        view_result(r) == decrypt_spec(cipher@, nonce@, ciphertext@),
{
    if cipher.bytes.len() != KEY_LEN || nonce.bytes.len() != NONCE_LEN {
        return Err(EciesError::AuthenticationFailure);
    }
    match aes_gcm_decrypt(cipher.bytes.as_slice(), nonce.bytes.as_slice(), ciphertext) {
        Ok(plaintext) => Ok(plaintext),
        Err(_) => Err(EciesError::AuthenticationFailure),
    }
}

} // verus!
