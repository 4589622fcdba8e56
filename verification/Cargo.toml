[package]
name = "ecies_study"
version = "0.1.0"
edition = "2021"
publish = false

[dependencies]
aes-gcm = "0.10"
elliptic-curve = { version = "0.13", features = ["arithmetic", "ecdh", "sec1"] }
hkdf = "0.12"
k256 = { version = "0.13", features = ["ecdh", "ecdsa"] }
rand_core = { version = "0.6", features = ["getrandom"] }
sha2 = "0.10"
