//! Key pairs on secp256k1 and Diffie-Hellman key agreement.
//!
//! Keys are held as bytes: a secret key as its 32-byte big-endian scalar, a
//! public key in SEC1 form. The curve arithmetic is `k256`'s.

use vstd::prelude::*;
use vstd::slice::slice_to_vec;
use crate::error::EciesError;
use crate::error::view_result;
use crate::scalar::scalar_parses;
use crate::scalar::scalar_valid;
use crate::scalar::SCALAR_LEN;

verus! {

/// Length in bytes of a compressed SEC1 point.
pub const COMPRESSED_POINT_LEN: usize = 33;

/// The compressed SEC1 encoding of the public point that `k256` derives from
/// a secret scalar.
pub uninterp spec fn public_key_of(secret: Seq<u8>) -> Seq<u8>;

/// Whether `k256` decodes the bytes as a SEC1 point of the curve other than
/// the identity.
pub uninterp spec fn sec1_point_valid(bytes: Seq<u8>) -> bool;

/// The x-coordinate that `k256` computes from a secret scalar and a peer's
/// SEC1 public key.
pub uninterp spec fn ecdh_secret(secret: Seq<u8>, peer: Seq<u8>) -> Seq<u8>;

/// The two sides of an exchange hold the same bytes: whoever owns the secret
/// key behind `peer` computes `shared` from the public key of `secret`.
pub open spec fn agreed_with_peer(secret: Seq<u8>, peer: Seq<u8>, shared: Seq<u8>) -> bool {
    forall|peer_secret: Seq<u8>|
        scalar_valid(peer_secret) && #[trigger] public_key_of(peer_secret) == peer
            ==> ecdh_secret(peer_secret, public_key_of(secret)) == shared
}

/// `SecretKey::random` of `elliptic-curve` for secp256k1, drawing from
/// `OsRng` of `rand_core`, then `SecretKey::to_bytes`.
///
/// Assumed: whatever the generator yields, the scalar is in range, so never
/// zero. Nothing is said of which scalar it is. `OsRng` panics if the
/// operating system fails to give randomness.
#[verifier::external_body]
fn random_scalar() -> (r: Vec<u8>)
    ensures
        scalar_valid(r@),
{
    k256::SecretKey::random(&mut rand_core::OsRng).to_bytes().to_vec()
}

/// `SecretKey::public_key` of `elliptic-curve` for secp256k1, then
/// `PublicKey::to_sec1_bytes`.
///
/// Assumed: the result is a function of the scalar, it is 33 bytes (secp256k1
/// compresses its points), and it decodes again as a point of the curve.
#[verifier::external_body]
fn derive_public(secret: &[u8]) -> (r: Vec<u8>)
    requires
        scalar_valid(secret@),
    ensures
        r@ == public_key_of(secret@),
        r@.len() == COMPRESSED_POINT_LEN,
        sec1_point_valid(r@),
{
    let key = k256::SecretKey::from_slice(secret).expect("scalar in range");
    key.public_key().to_sec1_bytes().into_vec()
}

/// `PublicKey::from_sec1_bytes` of `elliptic-curve` for secp256k1.
///
/// Assumed: whether it succeeds is a function of the bytes.
#[verifier::external_body]
fn point_parses(bytes: &[u8]) -> (r: Result<(), elliptic_curve::Error>)
    ensures
        r is Ok <==> sec1_point_valid(bytes@),
{
    k256::PublicKey::from_sec1_bytes(bytes).map(|_| ())
}

/// `ecdh::diffie_hellman` of `elliptic-curve` on secp256k1, on keys decoded
/// with `SecretKey::from_slice` and `PublicKey::from_sec1_bytes`, then
/// `SharedSecret::raw_secret_bytes`.
///
/// Assumed: it fails exactly when the peer's bytes do not decode; the result
/// is a function of the two keys, 32 bytes long; and, as the documentation of
/// `k256::ecdh` states, both participants arrive on the same shared secret.
#[verifier::external_body]
fn ecdh(secret: &[u8], peer: &[u8]) -> (r: Result<Vec<u8>, elliptic_curve::Error>)
    requires
        scalar_valid(secret@),
    ensures
        r is Ok <==> sec1_point_valid(peer@),
        r matches Ok(shared) ==> {
            &&& shared@ == ecdh_secret(secret@, peer@)
            &&& shared@.len() == SCALAR_LEN
            &&& agreed_with_peer(secret@, peer@, shared@)
        },
{
    let point = k256::PublicKey::from_sec1_bytes(peer)?;
    let key = k256::SecretKey::from_slice(secret)?;
    let shared = elliptic_curve::ecdh::diffie_hellman(key.to_nonzero_scalar(), point.as_affine());
    Ok(shared.raw_secret_bytes().to_vec())
}

/// A secret scalar. Every value of this type is in range.
pub struct SecretKey {
    bytes: Vec<u8>,
}

impl View for SecretKey {
    type V = Seq<u8>;

    closed spec fn view(&self) -> Seq<u8> {
        self.bytes@
    }
}

impl Clone for SecretKey {
    fn clone(&self) -> (r: SecretKey)
        ensures
            r@ == self@,
    {
        proof {
            use_type_invariant(self);
        }
        SecretKey { bytes: slice_to_vec(self.bytes.as_slice()) }
    }
}

impl SecretKey {
    #[verifier::type_invariant]
    spec fn in_range(&self) -> bool {
        scalar_valid(self.bytes@)
    }

    /// Well-formedness, for contracts that speak of a key as a value.
    pub open spec fn wf(&self) -> bool {
        scalar_valid(self@)
    }

    /// Takes 32 big-endian bytes as a secret key, if they denote a scalar in
    /// range.
    pub fn from_bytes(bytes: &[u8]) -> (r: Option<SecretKey>)
        ensures
            r is Some <==> scalar_valid(bytes@),
            r matches Some(key) ==> key@ == bytes@ && key.wf(),
    {
        if bytes.len() != SCALAR_LEN {
            return None;
        }
        match scalar_parses(bytes) {
            Ok(()) => Some(SecretKey { bytes: slice_to_vec(bytes) }),
            Err(_) => None,
        }
    }

    /// The scalar's bytes, for the modules that hand them to the curve.
    pub(crate) fn as_bytes(&self) -> (r: &[u8])
        ensures
            r@ == self@,
            scalar_valid(r@),
    {
        proof {
            use_type_invariant(self);
        }
        self.bytes.as_slice()
    }

    /// The public key that belongs to this secret key.
    pub fn public_key(&self) -> (r: PublicKey)
        ensures
            self.wf(),
            r@ == public_key_of(self@),
            r.is_valid(),
    {
        proof {
            use_type_invariant(self);
        }
        PublicKey { bytes: derive_public(self.bytes.as_slice()) }
    }
}

/// A public key as received: SEC1 bytes that may or may not be a point of
/// the curve.
#[derive(Debug, PartialEq, Eq)]
pub struct PublicKey {
    pub bytes: Vec<u8>,
}

impl View for PublicKey {
    type V = Seq<u8>;

    open spec fn view(&self) -> Seq<u8> {
        self.bytes@
    }
}

impl PublicKey {
    /// The bytes decode as a point of the curve other than the identity.
    pub open spec fn is_valid(&self) -> bool {
        sec1_point_valid(self@)
    }

    /// Takes SEC1 bytes as a public key, and rejects what is not a point of
    /// the curve.
    pub fn from_sec1_bytes(bytes: &[u8]) -> (r: Result<PublicKey, EciesError>)
        ensures
            match r {
                Ok(key) => sec1_point_valid(bytes@) && key@ == bytes@,
                Err(e) => !sec1_point_valid(bytes@) && e == EciesError::InvalidPoint,
            },
    {
        match point_parses(bytes) {
            Ok(()) => Ok(PublicKey { bytes: slice_to_vec(bytes) }),
            Err(_) => Err(EciesError::InvalidPoint),
        }
    }

    /// Tells whether the bytes are a point of the curve.
    pub fn validate(&self) -> (r: Result<(), EciesError>)
        ensures
            match r {
                Ok(_) => self.is_valid(),
                Err(e) => !self.is_valid() && e == EciesError::InvalidPoint,
            },
    {
        match point_parses(self.bytes.as_slice()) {
            Ok(()) => Ok(()),
            Err(_) => Err(EciesError::InvalidPoint),
        }
    }
}

impl Clone for PublicKey {
    fn clone(&self) -> (r: PublicKey)
        ensures
            r@ == self@,
    {
        PublicKey { bytes: slice_to_vec(self.bytes.as_slice()) }
    }
}

/// The raw output of key agreement: an x-coordinate, not yet a cipher key.
pub struct SharedSecret {
    pub bytes: Vec<u8>,
}

impl View for SharedSecret {
    type V = Seq<u8>;

    open spec fn view(&self) -> Seq<u8> {
        self.bytes@
    }
}

impl Clone for SharedSecret {
    fn clone(&self) -> (r: SharedSecret)
        ensures
            r@ == self@,
    {
        SharedSecret { bytes: slice_to_vec(self.bytes.as_slice()) }
    }
}

impl SharedSecret {
    /// The bytes of the secret.
    pub fn raw_secret_bytes(&self) -> (r: &[u8])
        ensures
            r@ == self@,
    {
        self.bytes.as_slice()
    }
}

/// A secret key with the public key that it determines. Identity keys and
/// ephemeral keys have this one shape; they differ in how long their owner
/// keeps them.
pub struct KeyPair {
    public_key: PublicKey,
    secret_key: SecretKey,
}

/// A key pair as a value: its two byte strings.
pub struct KeyPairView {
    pub public_key: Seq<u8>,
    pub secret_key: Seq<u8>,
}

impl View for KeyPair {
    type V = KeyPairView;

    closed spec fn view(&self) -> KeyPairView {
        KeyPairView { public_key: self.public_key@, secret_key: self.secret_key@ }
    }
}

impl Clone for KeyPair {
    fn clone(&self) -> (r: KeyPair)
        ensures
            r@ == self@,
    {
        proof {
            use_type_invariant(self);
        }
        KeyPair { public_key: self.public_key.clone(), secret_key: self.secret_key.clone() }
    }
}

/// The secret key is in range and the public key is the one derived from it.
pub open spec fn key_pair_valid(pair: KeyPairView) -> bool {
    &&& scalar_valid(pair.secret_key)
    &&& pair.public_key == public_key_of(pair.secret_key)
    &&& sec1_point_valid(pair.public_key)
}

impl KeyPair {
    #[verifier::type_invariant]
    spec fn derived(&self) -> bool {
        key_pair_valid(self@)
    }

    /// Well-formedness, for contracts that speak of a key pair as a value.
    pub open spec fn wf(&self) -> bool {
        key_pair_valid(self@)
    }

    /// The key pair of a secret key.
    pub fn from_secret_key(secret_key: SecretKey) -> (r: KeyPair)
        ensures
            r.wf(),
            r@.secret_key == secret_key@,
    {
        let public_key = secret_key.public_key();
        KeyPair { public_key, secret_key }
    }

    /// The public half.
    pub fn public_key(&self) -> (r: &PublicKey)
        ensures
            self.wf(),
            r@ == self@.public_key,
    {
        proof {
            use_type_invariant(self);
        }
        &self.public_key
    }

    /// The secret half.
    pub fn secret_key(&self) -> (r: &SecretKey)
        ensures
            self.wf(),
            r@ == self@.secret_key,
    {
        proof {
            use_type_invariant(self);
        }
        &self.secret_key
    }
}

/// What key agreement yields on given bytes: the shared x-coordinate, or
/// `InvalidPoint` where the peer's key is not a point of the curve.
pub open spec fn shared_secret_spec(peer: Seq<u8>, secret: Seq<u8>) -> Result<Seq<u8>, EciesError> {
    if sec1_point_valid(peer) {
        Ok(ecdh_secret(secret, peer))
    } else {
        Err(EciesError::InvalidPoint)
    }
}

/// Shared-secret symmetry, said of one outcome of key agreement between
/// `secret` and `pubkey`: whichever valid key pairs the two belong to, the
/// peer's secret key with one's own public key gives the same outcome.
pub open spec fn same_from_both_sides(
    outcome: Result<Seq<u8>, EciesError>,
    pubkey: Seq<u8>,
    secret: Seq<u8>,
) -> bool {
    forall|own: KeyPairView, peer: KeyPairView|
        #[trigger] key_pair_valid(own) && #[trigger] key_pair_valid(peer) && own.secret_key
            == secret && peer.public_key == pubkey ==> outcome == shared_secret_spec(
            own.public_key,
            peer.secret_key,
        )
}

/// Draws a fresh key pair from the operating system's randomness. The secret
/// scalar is in range, hence not zero.
pub fn generate_keypair() -> (r: KeyPair)
    ensures
        r.wf(),
{
    let bytes = random_scalar();
    KeyPair::from_secret_key(SecretKey { bytes })
}

/// Diffie-Hellman between one's own secret key and a peer's public key.
///
/// The peer's key is checked before any arithmetic: bytes that are not a
/// point of the curve give `InvalidPoint`. Otherwise the result is the shared
/// x-coordinate. The agreement is symmetric: between two valid key pairs,
/// each side's secret key with the other side's public key gives the same
/// result.
pub fn compute_shared_secret(pubkey: &PublicKey, secret: &SecretKey) -> (r: Result<
    SharedSecret,
    EciesError,
>)
    ensures
        secret.wf(),
        view_result(r) == shared_secret_spec(pubkey@, secret@),
        r matches Ok(shared) ==> shared@.len() == SCALAR_LEN,
        same_from_both_sides(view_result(r), pubkey@, secret@),
{
    proof {
        use_type_invariant(secret);
    }
    match ecdh(secret.bytes.as_slice(), pubkey.bytes.as_slice()) {
        Ok(bytes) => Ok(SharedSecret { bytes }),
        Err(_) => Err(EciesError::InvalidPoint),
    }
}

} // verus!
