use antcolony_consensus::hashing::{hash_sha256, hash_string};
use antcolony_consensus::pheromone::Pheromone;
use antcolony_consensus::signing::{
    generate_key_pair, sign_message, verify_signature, KeyPairWrapper,
};
use antcolony_consensus::types::ConsensusValue;

#[test]
fn test_hash_sha256() {
    let data = b"test data";
    let hash1 = hash_sha256(data);
    let hash2 = hash_sha256(data);

    assert_eq!(hash1, hash2);

    let hash3 = hash_sha256(b"different data");
    assert_ne!(hash1, hash3);
}

#[test]
fn hash_string_matches_bytes() {
    assert_eq!(hash_string("abc"), hash_sha256(b"abc"));
    let empty = hash_sha256(b"");
    assert_eq!(empty[0], 0xe3);
    assert_eq!(empty[31], 0x55);
}

#[test]
fn test_key_pair_generation() {
    let key_pair = KeyPairWrapper::generate();
    assert!(key_pair.is_ok());
}

#[test]
fn test_sign_and_verify() {
    let key_pair = KeyPairWrapper::generate().unwrap();
    let public_key = key_pair.public_key();

    let message = b"test message";
    let signature = key_pair.sign(message);

    let verified = verify_signature(message, &signature, &public_key);
    assert!(verified.is_ok());
    assert!(verified.unwrap());
}

#[test]
fn wrong_message_does_not_verify() {
    let key_pair = KeyPairWrapper::generate().unwrap();
    let public_key = key_pair.public_key();
    assert_eq!(public_key.bytes.len(), 32);
    let signature = key_pair.sign(b"one");
    assert_eq!(signature.len(), 64);
    assert!(verify_signature(b"two", &signature, &public_key).is_err());
    assert!(key_pair.private_key_bytes().is_empty());
}

#[test]
fn sign_message_rejects_malformed_key() {
    assert!(sign_message(b"m", &[0u8; 32]).is_err());
    assert!(KeyPairWrapper::from_private_key_bytes(&[1, 2, 3]).is_err());
}

#[test]
fn generated_key_pair_has_public_key() {
    let (public_key, private_key) = generate_key_pair().unwrap();
    assert_eq!(public_key.bytes.len(), 32);
    assert!(private_key.is_empty());
}

#[test]
fn placeholder_signature_does_not_verify() {
    let key_pair = KeyPairWrapper::generate().unwrap();
    let value = ConsensusValue::from_string("test");
    let p = Pheromone::new_at(value, 1, &[], 5).unwrap();
    assert!(!p.verify(&key_pair.public_key()));
}
