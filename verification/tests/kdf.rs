use ecies_study::error::EciesError;
use ecies_study::kdf::derive_key;
use ecies_study::kdf::HASH_LEN;
use ecies_study::kdf::MAX_OUTPUT_LEN;

fn hex(text: &str) -> Vec<u8> {
    let digits: Vec<u8> = text
        .bytes()
        .filter(|b| !b.is_ascii_whitespace())
        .map(|b| (b as char).to_digit(16).expect("hex digit") as u8)
        .collect();
    assert!(digits.len() % 2 == 0);
    digits.chunks(2).map(|pair| pair[0] * 16 + pair[1]).collect()
}

// RFC 5869, appendix A.3: SHA-256 with zero-length salt and info.
const IKM: [u8; 22] = [0x0b; 22];
const OKM: &str = "8da4e775a563c18f715f802a063c5a31b8a11f5c5ee1879ec3454e5f3c738d2d
                   9d201395faa4b61a96c8";

#[test]
fn derive_key_matches_the_rfc_vector() {
    assert_eq!(derive_key(&IKM, 42), Ok(hex(OKM)));
}

#[test]
fn derive_key_of_32_bytes_is_the_first_block() {
    let key = derive_key(&IKM, 32).unwrap();
    assert_eq!(key, hex(OKM)[..32].to_vec());
}

#[test]
fn derive_key_is_deterministic() {
    let secret = [0x42u8; 32];
    let first = derive_key(&secret, 32).unwrap();
    let second = derive_key(&secret, 32).unwrap();
    assert_eq!(first, second);
    assert_eq!(first.len(), 32);
    assert_ne!(first, secret.to_vec());
}

#[test]
fn derive_key_tells_secrets_apart() {
    let mut other = [0x42u8; 32];
    other[31] ^= 1;
    assert_ne!(derive_key(&[0x42u8; 32], 32), derive_key(&other, 32));
}

#[test]
fn derive_key_of_no_bytes() {
    assert_eq!(derive_key(&IKM, 0), Ok(vec![]));
}

#[test]
fn derive_key_takes_an_empty_secret() {
    assert_eq!(derive_key(&[], 32).unwrap().len(), 32);
}

#[test]
fn derive_key_up_to_the_bound() {
    assert_eq!(MAX_OUTPUT_LEN, 255 * HASH_LEN);
    let longest = derive_key(&IKM, MAX_OUTPUT_LEN).unwrap();
    assert_eq!(longest.len(), 8160);
    assert_eq!(longest[..42].to_vec(), hex(OKM));
}

#[test]
fn derive_key_refuses_more_than_the_bound() {
    assert_eq!(derive_key(&IKM, 8161), Err(EciesError::KdfExpansionError));
    assert_eq!(derive_key(&IKM, usize::MAX), Err(EciesError::KdfExpansionError));
}
