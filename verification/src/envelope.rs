//! The message envelope, and the send and receive paths that make and open
//! it.

use vstd::prelude::*;
use vstd::slice::slice_to_vec;
use crate::cipher::decrypt_message;
use crate::cipher::decrypt_spec;
use crate::cipher::derive_symmetric_key;
use crate::cipher::encrypt_message_with_cipher;
use crate::cipher::encrypt_spec;
use crate::cipher::generate_nonce;
use crate::cipher::Nonce;
use crate::cipher::KEY_LEN;
use crate::cipher::MAX_PLAINTEXT_LEN;
use crate::cipher::NONCE_LEN;
use crate::error::view_result;
use crate::error::EciesError;
use crate::kdf::hkdf_sha256;
use crate::keys::compute_shared_secret;
use crate::keys::generate_keypair;
use crate::keys::key_pair_valid;
use crate::keys::shared_secret_spec;
use crate::keys::KeyPair;
use crate::keys::KeyPairView;
use crate::keys::PublicKey;
use crate::keys::SecretKey;
use crate::signature::sign_message;
use crate::signature::sign_spec;
use crate::signature::verify_signature;
use crate::signature::verify_spec;
use crate::signature::Signature;

verus! {

/// Everything that travels from sender to receiver: what the receiver needs
/// to recompute the shared secret, to decrypt, and to check who sent it. No
/// secret key is part of it.
#[derive(Debug, PartialEq, Eq)]
pub struct EncryptedMessageInfo {
    pub ciphertext: Vec<u8>,
    pub receiver_pubkey: PublicKey,
    pub sender_ephemeral: PublicKey,
    pub nonce: Nonce,
    pub sender_id_pubkey: PublicKey,
    pub signature: Signature,
}

/// An envelope as a value: its six byte strings.
pub struct EnvelopeView {
    pub ciphertext: Seq<u8>,
    pub receiver_pubkey: Seq<u8>,
    pub sender_ephemeral: Seq<u8>,
    pub nonce: Seq<u8>,
    pub sender_id_pubkey: Seq<u8>,
    pub signature: Seq<u8>,
}

impl View for EncryptedMessageInfo {
    type V = EnvelopeView;

    open spec fn view(&self) -> EnvelopeView {
        EnvelopeView {
            ciphertext: self.ciphertext@,
            receiver_pubkey: self.receiver_pubkey@,
            sender_ephemeral: self.sender_ephemeral@,
            nonce: self.nonce@,
            sender_id_pubkey: self.sender_id_pubkey@,
            signature: self.signature@,
        }
    }
}

impl Clone for EncryptedMessageInfo {
    fn clone(&self) -> (r: EncryptedMessageInfo)
        ensures
            r@ == self@,
    {
        EncryptedMessageInfo {
            ciphertext: slice_to_vec(self.ciphertext.as_slice()),
            receiver_pubkey: self.receiver_pubkey.clone(),
            sender_ephemeral: self.sender_ephemeral.clone(),
            nonce: self.nonce.clone(),
            sender_id_pubkey: self.sender_id_pubkey.clone(),
            signature: self.signature.clone(),
        }
    }
}

/// The send path on given draws: key agreement between the ephemeral secret
/// and the receiver's public key, key derivation, encryption under the nonce,
/// and the sender's signature over the ciphertext. The first step that fails
/// decides the error.
pub open spec fn send_message_spec(
    message: Seq<u8>,
    sender: KeyPairView,
    to_pub: Seq<u8>,
    ephemeral: KeyPairView,
    nonce: Seq<u8>,
) -> Result<EnvelopeView, EciesError> {
    match shared_secret_spec(to_pub, ephemeral.secret_key) {
        Err(e) => Err(e),
        Ok(shared) => match encrypt_spec(hkdf_sha256(shared, KEY_LEN as nat), nonce, message) {
            Err(e) => Err(e),
            Ok(ciphertext) => match sign_spec(sender.secret_key, ciphertext) {
                Err(e) => Err(e),
                Ok(signature) => Ok(
                    EnvelopeView {
                        ciphertext,
                        receiver_pubkey: to_pub,
                        sender_ephemeral: ephemeral.public_key,
                        nonce,
                        sender_id_pubkey: sender.public_key,
                        signature,
                    },
                ),
            },
        },
    }
}

/// The receive path of the minimal scheme: key agreement between the
/// receiver's secret and the envelope's ephemeral key, key derivation, and
/// decryption under the envelope's nonce.
pub open spec fn decrypt_message_info_spec(info: EnvelopeView, secret: Seq<u8>) -> Result<
    Seq<u8>,
    EciesError,
> {
    match shared_secret_spec(info.sender_ephemeral, secret) {
        Err(e) => Err(e),
        Ok(shared) => decrypt_spec(hkdf_sha256(shared, KEY_LEN as nat), info.nonce, info.ciphertext),
    }
}

/// The receive path that trusts no plaintext before the signature: an
/// envelope whose signature does not verify over its ciphertext under its
/// claimed sender is rejected and not decrypted.
pub open spec fn verify_and_decrypt_spec(info: EnvelopeView, secret: Seq<u8>) -> Result<
    Seq<u8>,
    EciesError,
> {
    match verify_spec(info.sender_id_pubkey, info.ciphertext, info.signature) {
        Err(e) => Err(e),
        Ok(accepted) => if accepted {
            decrypt_message_info_spec(info, secret)
        } else {
            Err(EciesError::SignatureVerificationFailed)
        },
    }
}

/// An envelope opens to `message` for the owner of `to_pub`, on both receive
/// paths.
pub open spec fn opens_for_receiver(info: EnvelopeView, to_pub: Seq<u8>, message: Seq<u8>) -> bool {
    forall|receiver: KeyPairView| #[trigger]
        key_pair_valid(receiver) && receiver.public_key == to_pub ==> {
            &&& decrypt_message_info_spec(info, receiver.secret_key) == Ok::<Seq<u8>, EciesError>(
                message,
            )
            &&& verify_and_decrypt_spec(info, receiver.secret_key) == Ok::<Seq<u8>, EciesError>(
                message,
            )
        }
}

/// Seals a message with a given ephemeral key pair and a given nonce.
///
/// This is the whole send path but for the two random draws, so that a
/// caller with a deterministic source gets reproducible envelopes. Each
/// ephemeral key pair and each nonce is for one message only.
///
/// A receiver's key that is no point of the curve gives `InvalidPoint`; a
/// nonce of the wrong size or a message longer than the cipher admits gives
/// `EncryptionFailure`; `MalformedSignature` is left for the signer that can
/// form no signature. An envelope that comes back opens, for the owner of
/// `to_pub`, to the message.
pub fn send_message_with(
    message: &[u8],
    sender: &KeyPair,
    to_pub: &PublicKey,
    ephemeral: &KeyPair,
    nonce: &Nonce,
) -> (r: Result<EncryptedMessageInfo, EciesError>)
    ensures
        view_result(r) == send_message_spec(message@, sender@, to_pub@, ephemeral@, nonce@),
        r matches Err(EciesError::InvalidPoint) <==> !to_pub.is_valid(),
        r matches Err(EciesError::EncryptionFailure) <==> to_pub.is_valid() && (nonce@.len()
            != NONCE_LEN || message@.len() > MAX_PLAINTEXT_LEN),
        r matches Err(e) ==> e == EciesError::InvalidPoint || e == EciesError::EncryptionFailure
            || e == EciesError::MalformedSignature,
        r matches Ok(info) ==> opens_for_receiver(info@, to_pub@, message@),
{
    let shared = compute_shared_secret(to_pub, ephemeral.secret_key())?;
    let cipher = derive_symmetric_key(&shared);
    let ciphertext = encrypt_message_with_cipher(message, &cipher, nonce)?;
    let signature = sign_message(sender.secret_key(), ciphertext.as_slice())?;
    let info = EncryptedMessageInfo {
        ciphertext,
        receiver_pubkey: to_pub.clone(),
        sender_ephemeral: ephemeral.public_key().clone(),
        nonce: nonce.clone(),
        sender_id_pubkey: sender.public_key().clone(),
        signature,
    };
    // The receiver's key agreement gives the same secret, hence the same
    // cipher key; the cipher opens what it sealed under that key and nonce;
    // and the signature verifies under the sender's public key.
    Ok(info)
}

/// The outcome of `send_message` is that of the send path on some valid
/// ephemeral key pair and some nonce of the right size.
pub open spec fn sent_on_some_draw(
    r: Result<EnvelopeView, EciesError>,
    message: Seq<u8>,
    sender: KeyPairView,
    to_pub: Seq<u8>,
) -> bool {
    exists|ephemeral: KeyPairView, nonce: Seq<u8>|
        {
            &&& key_pair_valid(ephemeral)
            &&& nonce.len() == NONCE_LEN
            &&& r == #[trigger] send_message_spec(message, sender, to_pub, ephemeral, nonce)
        }
}

/// Seals a message for the owner of `to_pub` and signs it as `sender`.
///
/// A fresh ephemeral key pair and a fresh nonce are drawn for this one
/// message. The sender's secret key signs; only public keys enter the
/// envelope. The signature is not checked here: that is the receiver's part.
///
/// A receiver's key that is no point of the curve gives `InvalidPoint`, a
/// message longer than the cipher admits gives `EncryptionFailure`. On every
/// other input the envelope comes back, unless the signer can form no
/// signature over the ciphertext that the draws led to.
pub fn send_message(message: &[u8], sender: &KeyPair, to_pub: &PublicKey) -> (r: Result<
    EncryptedMessageInfo,
    EciesError,
>)
    ensures
        sent_on_some_draw(view_result(r), message@, sender@, to_pub@),
        r matches Err(EciesError::InvalidPoint) <==> !to_pub.is_valid(),
        r matches Err(EciesError::EncryptionFailure) <==> to_pub.is_valid() && message@.len()
            > MAX_PLAINTEXT_LEN,
        r matches Err(e) ==> e == EciesError::InvalidPoint || e == EciesError::EncryptionFailure
            || e == EciesError::MalformedSignature,
        r matches Ok(info) ==> opens_for_receiver(info@, to_pub@, message@),
{
    let ephemeral = generate_keypair();
    let nonce = generate_nonce();
    let r = send_message_with(message, sender, to_pub, &ephemeral, &nonce);
    r
}

/// Opens an envelope with the receiver's secret key, without looking at the
/// signature.
pub fn decrypt_message_info(message_info: EncryptedMessageInfo, secret_key: &SecretKey) -> (r:
    Result<Vec<u8>, EciesError>)
    ensures
        view_result(r) == decrypt_message_info_spec(message_info@, secret_key@),
{
    let shared = compute_shared_secret(&message_info.sender_ephemeral, secret_key)?;
    let cipher = derive_symmetric_key(&shared);
    decrypt_message(&message_info.nonce, &cipher, message_info.ciphertext.as_slice())
}

/// Opens an envelope only if its signature verifies over the ciphertext under
/// the sender's key that the envelope presents. Whether that key is the
/// expected sender's is for the caller to check.
pub fn verify_and_decrypt_message_info(
    message_info: EncryptedMessageInfo,
    secret_key: &SecretKey,
) -> (r: Result<Vec<u8>, EciesError>)
    ensures
        view_result(r) == verify_and_decrypt_spec(message_info@, secret_key@),
{
    let accepted = verify_signature(
        &message_info.sender_id_pubkey,
        message_info.ciphertext.as_slice(),
        &message_info.signature,
    )?;
    if !accepted {
        return Err(EciesError::SignatureVerificationFailed);
    }
    decrypt_message_info(message_info, secret_key)
}

} // verus!
