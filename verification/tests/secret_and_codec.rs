use key_bundle::codec::{encode_encrypting_key, encode_signing_key};
use key_bundle::error::KeyError;
use key_bundle::secret::SecretBuf;
use key_bundle::seed::{Seed, SeedType};
use key_bundle::sizes::{
    AEAD_NONCE_SIZE, AEAD_TAG_SIZE, ENC_PUBLIC_KEY_SIZE, ENC_SECRET_KEY_SIZE, SEED_SIZE,
    SIGNATURE_SIZE, SIGN_PUBLIC_KEY_SIZE, SIGN_SECRET_KEY_SIZE,
};

#[test]
fn sizes_have_their_values() {
    assert_eq!(32, SEED_SIZE);
    assert_eq!(64, SIGNATURE_SIZE);
    assert_eq!(32, SIGN_PUBLIC_KEY_SIZE);
    assert_eq!(64, SIGN_SECRET_KEY_SIZE);
    assert_eq!(32, ENC_PUBLIC_KEY_SIZE);
    assert_eq!(32, ENC_SECRET_KEY_SIZE);
    assert_eq!(16, AEAD_TAG_SIZE);
    assert_eq!(24, AEAD_NONCE_SIZE);
}

#[test]
fn zeroed_buffer_holds_zeros() {
    let buf = SecretBuf::zeroed(5);
    assert_eq!(5, buf.len());
    assert_eq!(&[0u8, 0, 0, 0, 0][..], buf.as_slice());
    let empty = SecretBuf::zeroed(0);
    assert_eq!(0, empty.len());
    assert!(empty.as_slice().is_empty());
}

#[test]
fn from_bytes_keeps_the_bytes() {
    let buf = SecretBuf::from_bytes(vec![7, 8, 9]);
    assert_eq!(3, buf.len());
    assert_eq!(&[7u8, 8, 9][..], buf.as_slice());
}

#[test]
fn same_bytes_compares_whole_content() {
    let a = SecretBuf::from_bytes(vec![1, 2, 3, 4]);
    assert!(a.same_bytes(&SecretBuf::from_bytes(vec![1, 2, 3, 4])));
    assert!(!a.same_bytes(&SecretBuf::from_bytes(vec![9, 2, 3, 4])));
    assert!(!a.same_bytes(&SecretBuf::from_bytes(vec![1, 2, 3, 5])));
    assert!(!a.same_bytes(&SecretBuf::from_bytes(vec![1, 2, 3])));
    assert!(!a.same_bytes(&SecretBuf::from_bytes(vec![1, 2, 3, 4, 0])));
    assert!(SecretBuf::zeroed(0).same_bytes(&SecretBuf::from_bytes(Vec::new())));
    // bytes that differ only in the top bit, and bytes whose differences would cancel
    assert!(!SecretBuf::from_bytes(vec![0x80]).same_bytes(&SecretBuf::from_bytes(vec![0x00])));
    assert!(!SecretBuf::from_bytes(vec![1, 1]).same_bytes(&SecretBuf::from_bytes(vec![0, 0])));
}

#[test]
fn wipe_zeroes_and_keeps_length() {
    let mut buf = SecretBuf::from_bytes(vec![0xff; 40]);
    buf.wipe();
    assert_eq!(40, buf.len());
    assert!(buf.same_bytes(&SecretBuf::zeroed(40)));
    let mut empty = SecretBuf::from_bytes(Vec::new());
    empty.wipe();
    assert_eq!(0, empty.len());
}

#[test]
fn seed_keeps_buffer_and_type() {
    let seed = Seed::new(SecretBuf::from_bytes(vec![3; 32]), SeedType::Device);
    assert_eq!(SeedType::Device, seed.seed_type);
    assert_eq!(32, seed.buf.len());
    assert_eq!(&[3u8; 32][..], seed.buf.as_slice());
    // a seed of another length can be made; derivation is what refuses it
    let short = Seed::new(SecretBuf::zeroed(5), SeedType::Root);
    assert_eq!(SeedType::Root, short.seed_type);
    assert_eq!(5, short.buf.len());
    assert_ne!(SeedType::Root, SeedType::Revocation);
}

#[test]
fn signing_key_of_zeros_has_known_identifier() {
    let id = encode_signing_key(&[0u8; 32]).unwrap();
    assert_eq!("HcSciaaaaaaaaaaaaaaaaaaaaaaaaaaaaaaaaaaaaaaaaaaaaaaaaaaaaaaaaaa", id);
    assert_eq!(63, id.len());
}

#[test]
fn encrypting_key_has_known_identifier() {
    let key: [u8; 32] = [
        0x0c, 0x71, 0xdb, 0x50, 0xd3, 0x5d, 0x76, 0x0b, 0x0e, 0xa2, 0x00, 0x2f, 0xf2, 0x01, 0x47,
        0xc7, 0xc3, 0xa8, 0xe8, 0x03, 0x0d, 0x35, 0xef, 0x28, 0xed, 0x1a, 0xda, 0xec, 0x9e, 0x32,
        0x9a, 0xba,
    ];
    let id = encode_encrypting_key(&key).unwrap();
    assert_eq!("HcKciDds5OiogymxbnHKEabQ8iavqs8dwdVaGdJW76Vp4gx47tQDfGW4OWc9w5i", id);
}

#[test]
fn the_two_kinds_of_identifier_differ() {
    let key = [0x5au8; 32];
    let signing = encode_signing_key(&key).unwrap();
    let encrypting = encode_encrypting_key(&key).unwrap();
    assert_ne!(signing, encrypting);
    assert!(signing.starts_with("HcS"));
    assert!(encrypting.starts_with("HcK"));
}

#[test]
fn identifier_can_be_decoded_again() {
    let key: Vec<u8> = (0u8..32).collect();
    let id = encode_signing_key(&key).unwrap();
    let codec = hcid::HcidEncoding::with_kind("hcs0").unwrap();
    assert_eq!(key, codec.decode(&id).unwrap());
}

#[test]
fn key_of_wrong_length_has_no_identifier() {
    assert_eq!(Err(KeyError::Derivation), encode_signing_key(&[0u8; 31]));
    assert_eq!(Err(KeyError::Derivation), encode_signing_key(&[0u8; 33]));
    assert_eq!(Err(KeyError::Derivation), encode_signing_key(&[]));
    assert_eq!(Err(KeyError::Derivation), encode_encrypting_key(&[0u8; 64]));
}
