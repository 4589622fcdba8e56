//! Authenticated hybrid encryption for point-to-point messages over secp256k1.
//!
//! A sender seals a message for a receiver's static public key with a fresh
//! ephemeral key pair (ECDH, then HKDF-SHA256, then AES-256-GCM) and signs the
//! ciphertext with a long-term identity key. The curve arithmetic, the hash
//! and the cipher are the RustCrypto crates'; every call into them goes
//! through a small function whose contract is assumed, not proved. All the
//! composition around those calls is verified.

pub mod error;
pub mod scalar;
pub mod keys;
pub mod kdf;
pub mod cipher;
pub mod signature;
pub mod envelope;
pub mod state;
