use ecies_study::cipher::decrypt_message;
use ecies_study::cipher::derive_symmetric_key;
use ecies_study::cipher::encrypt_message_with_cipher;
use ecies_study::cipher::generate_cipher;
use ecies_study::cipher::generate_nonce;
use ecies_study::cipher::Nonce;
use ecies_study::cipher::SymmetricKey;
use ecies_study::error::EciesError;
use ecies_study::kdf::derive_key;
use ecies_study::keys::SharedSecret;

fn hex(text: &str) -> Vec<u8> {
    let digits: Vec<u8> = text
        .bytes()
        .filter(|b| !b.is_ascii_whitespace())
        .map(|b| (b as char).to_digit(16).expect("hex digit") as u8)
        .collect();
    assert!(digits.len() % 2 == 0);
    digits.chunks(2).map(|pair| pair[0] * 16 + pair[1]).collect()
}

fn key(text: &str) -> SymmetricKey {
    SymmetricKey { bytes: hex(text) }
}

fn nonce(text: &str) -> Nonce {
    Nonce { bytes: hex(text) }
}

// NIST CAVP, gcmEncryptExtIV256: 96-bit nonce, no associated data.
const KEY: &str = "31bdadd96698c204aa9ce1448ea94ae1fb4a9a0b3c9d773b51bb1822666b8f22";
const NONCE: &str = "0d18e06c7c725ac9e362e1ce";
const PLAINTEXT: &str = "2db5168e932556f8089a0622981d017d";
const SEALED: &str = "fa4362189661d163fcd6a56d8bf0405a d636ac1bbedd5cc3ee727dc2ab4a9489";

const EMPTY_KEY: &str = "b52c505a37d78eda5dd34f20c22540ea1b58963cf8e5bf8ffa85f9f2492505b4";
const EMPTY_NONCE: &str = "516c33929df5a3284ff463d7";
const EMPTY_TAG: &str = "bdc1ac884d332457a1d2664f168c76f0";

#[test]
fn encrypt_matches_the_nist_vector() {
    let sealed = encrypt_message_with_cipher(&hex(PLAINTEXT), &key(KEY), &nonce(NONCE));
    assert_eq!(sealed, Ok(hex(SEALED)));
}

#[test]
fn decrypt_matches_the_nist_vector() {
    let opened = decrypt_message(&nonce(NONCE), &key(KEY), &hex(SEALED));
    assert_eq!(opened, Ok(hex(PLAINTEXT)));
}

#[test]
fn empty_plaintext_gives_the_tag_alone() {
    let sealed = encrypt_message_with_cipher(&[], &key(EMPTY_KEY), &nonce(EMPTY_NONCE));
    assert_eq!(sealed, Ok(hex(EMPTY_TAG)));
    let opened = decrypt_message(&nonce(EMPTY_NONCE), &key(EMPTY_KEY), &hex(EMPTY_TAG));
    assert_eq!(opened, Ok(vec![]));
}

#[test]
fn ciphertext_is_plaintext_plus_tag() {
    for len in [0usize, 1, 15, 16, 17, 1000] {
        let message = vec![0x5au8; len];
        let sealed = encrypt_message_with_cipher(&message, &key(KEY), &nonce(NONCE)).unwrap();
        assert_eq!(sealed.len(), len + 16);
        assert_eq!(decrypt_message(&nonce(NONCE), &key(KEY), &sealed), Ok(message));
    }
}

#[test]
fn flipping_any_bit_of_the_ciphertext_is_detected() {
    let sealed = hex(SEALED);
    for bit in 0..sealed.len() * 8 {
        let mut tampered = sealed.clone();
        tampered[bit / 8] ^= 1 << (bit % 8);
        let outcome = decrypt_message(&nonce(NONCE), &key(KEY), &tampered);
        assert_eq!(outcome, Err(EciesError::AuthenticationFailure));
    }
}

#[test]
fn flipping_any_bit_of_the_nonce_is_detected() {
    for bit in 0..12 * 8 {
        let mut tampered = nonce(NONCE);
        tampered.bytes[bit / 8] ^= 1 << (bit % 8);
        let outcome = decrypt_message(&tampered, &key(KEY), &hex(SEALED));
        assert_eq!(outcome, Err(EciesError::AuthenticationFailure));
    }
}

#[test]
fn flipping_any_bit_of_the_key_is_detected() {
    for bit in 0..32 * 8 {
        let mut tampered = key(KEY);
        tampered.bytes[bit / 8] ^= 1 << (bit % 8);
        let outcome = decrypt_message(&nonce(NONCE), &tampered, &hex(SEALED));
        assert_eq!(outcome, Err(EciesError::AuthenticationFailure));
    }
}

#[test]
fn truncated_ciphertext_is_rejected() {
    let sealed = hex(SEALED);
    for len in [0usize, 1, 15, 16, 31] {
        let outcome = decrypt_message(&nonce(NONCE), &key(KEY), &sealed[..len]);
        assert_eq!(outcome, Err(EciesError::AuthenticationFailure));
    }
}

#[test]
fn encrypt_refuses_a_key_of_the_wrong_size() {
    for len in [0usize, 16, 31, 33] {
        let short = SymmetricKey { bytes: vec![7u8; len] };
        let outcome = encrypt_message_with_cipher(b"milady", &short, &nonce(NONCE));
        assert_eq!(outcome, Err(EciesError::EncryptionFailure));
    }
}

#[test]
fn encrypt_refuses_a_nonce_of_the_wrong_size() {
    for len in [0usize, 11, 13, 16] {
        let odd = Nonce { bytes: vec![7u8; len] };
        let outcome = encrypt_message_with_cipher(b"milady", &key(KEY), &odd);
        assert_eq!(outcome, Err(EciesError::EncryptionFailure));
    }
}

#[test]
fn decrypt_with_wrong_sizes_fails_like_a_wrong_key() {
    let short = SymmetricKey { bytes: vec![7u8; 31] };
    let odd = Nonce { bytes: vec![7u8; 13] };
    assert_eq!(
        decrypt_message(&nonce(NONCE), &short, &hex(SEALED)),
        Err(EciesError::AuthenticationFailure)
    );
    assert_eq!(
        decrypt_message(&odd, &key(KEY), &hex(SEALED)),
        Err(EciesError::AuthenticationFailure)
    );
}

#[test]
fn symmetric_key_is_the_derived_key() {
    let shared = SharedSecret { bytes: vec![0x0b; 22] };
    let derived = derive_symmetric_key(&shared);
    assert_eq!(
        derived.bytes,
        hex("8da4e775a563c18f715f802a063c5a31b8a11f5c5ee1879ec3454e5f3c738d2d")
    );
    assert_eq!(Ok(derived.bytes), derive_key(shared.raw_secret_bytes(), 32));
}

#[test]
fn generate_cipher_derives_the_key_and_draws_a_nonce() {
    let shared = SharedSecret { bytes: vec![0x0b; 22] };
    let (cipher, nonce) = generate_cipher(&shared);
    assert_eq!(cipher.bytes, derive_symmetric_key(&shared).bytes);
    assert_eq!(cipher.bytes.len(), 32);
    assert_eq!(nonce.bytes.len(), 12);

    let sealed = encrypt_message_with_cipher(b"milady", &cipher, &nonce).unwrap();
    assert_eq!(decrypt_message(&nonce, &cipher, &sealed), Ok(b"milady".to_vec()));
}

#[test]
fn fresh_nonces_differ_and_so_do_the_ciphertexts() {
    let shared = SharedSecret { bytes: vec![0x0b; 22] };
    let (cipher, first) = generate_cipher(&shared);
    let (again, second) = generate_cipher(&shared);
    assert_eq!(cipher.bytes, again.bytes);
    assert_ne!(first, second);
    assert_ne!(first, generate_nonce());

    let one = encrypt_message_with_cipher(b"milady", &cipher, &first).unwrap();
    let two = encrypt_message_with_cipher(b"milady", &cipher, &second).unwrap();
    assert_ne!(one, two);
}

#[test]
fn clones_are_equal() {
    let cipher = key(KEY);
    let nonce = nonce(NONCE);
    assert_eq!(cipher.clone().bytes, cipher.bytes);
    assert_eq!(nonce.clone(), nonce);
    let shared = SharedSecret { bytes: vec![1, 2, 3] };
    assert_eq!(shared.clone().bytes, shared.bytes);
}
