use crypto_facade::ed25519::{
    ED25519_PRIVATE_KEY_LENGTH, ED25519_PUBLIC_KEY_LENGTH, ED25519_SIGNATURE_LENGTH,
};
use crypto_facade::{hex_decode, hex_encode, Ed25519KeyPairWrapper, FastCryptoError};
use fastcrypto::traits::{KeyPair, ToFromBytes};

const SEED: &str = "9d61b19deffd5a60ba844af492ec2cc44449c5697b326919703bac031cae7f60";
const PUBLIC: &str = "d75a980182b10ab7d54bfed3c964073a0ee172f3daa62325af021a68f707511a";
const SIGNATURE_OF_EMPTY: &str = "e5564300c360ac729086e2cc806e828a84877f1eb8e5d974d873e065224901555fb8821590a33bacc61e39701cf9b46bd25bf5f0595bbe24655141438e7a100b";

fn bytes(text: &str) -> Vec<u8> {
    hex_decode(text.to_string()).unwrap()
}

#[test]
fn ed25519_lengths_agree_with_the_primitives() {
    assert_eq!(ED25519_PRIVATE_KEY_LENGTH, fastcrypto::ed25519::ED25519_PRIVATE_KEY_LENGTH);
    assert_eq!(ED25519_PUBLIC_KEY_LENGTH, fastcrypto::ed25519::ED25519_PUBLIC_KEY_LENGTH);
    assert_eq!(ED25519_SIGNATURE_LENGTH, fastcrypto::ed25519::ED25519_SIGNATURE_LENGTH);
}

#[test]
fn ed25519_known_seed_gives_known_public_key() {
    let pair = Ed25519KeyPairWrapper::from_bytes(bytes(SEED)).unwrap();
    assert_eq!(hex_encode(pair.public_key()), PUBLIC);
}

#[test]
fn ed25519_known_seed_gives_known_signature() {
    let pair = Ed25519KeyPairWrapper::from_bytes(bytes(SEED)).unwrap();
    assert_eq!(hex_encode(pair.sign(vec![])), SIGNATURE_OF_EMPTY);
    assert_eq!(pair.verify(vec![], bytes(SIGNATURE_OF_EMPTY)).unwrap(), true);
}

#[test]
fn ed25519_sign_then_verify_accepts() {
    let pair = Ed25519KeyPairWrapper::generate();
    let messages: Vec<Vec<u8>> = vec![vec![], vec![0], b"Hello, world!".to_vec(), vec![0xff; 4096]];
    for message in messages {
        let signature = pair.sign(message.clone());
        assert_eq!(signature.len(), ED25519_SIGNATURE_LENGTH);
        assert_eq!(pair.verify(message, signature).unwrap(), true);
    }
}

#[test]
fn ed25519_signing_is_repeatable() {
    let pair = Ed25519KeyPairWrapper::generate();
    assert_eq!(pair.sign(b"again".to_vec()), pair.sign(b"again".to_vec()));
}

#[test]
fn ed25519_verify_says_false_for_another_message() {
    let pair = Ed25519KeyPairWrapper::generate();
    let signature = pair.sign(b"one".to_vec());
    assert_eq!(pair.verify(b"two".to_vec(), signature).unwrap(), false);
}

#[test]
fn ed25519_verify_says_false_for_a_tampered_signature() {
    let pair = Ed25519KeyPairWrapper::generate();
    let mut signature = pair.sign(b"message".to_vec());
    signature[0] ^= 0x01;
    assert_eq!(pair.verify(b"message".to_vec(), signature).unwrap(), false);
}

#[test]
fn ed25519_verify_says_false_for_another_signer() {
    let signer = Ed25519KeyPairWrapper::generate();
    let other = Ed25519KeyPairWrapper::generate();
    let signature = signer.sign(b"message".to_vec());
    assert_eq!(other.verify(b"message".to_vec(), signature).unwrap(), false);
}

#[test]
fn ed25519_verify_fails_on_a_signature_of_wrong_length() {
    let pair = Ed25519KeyPairWrapper::generate();
    for length in [0usize, 1, 63, 65, 128] {
        let error = pair.verify(b"message".to_vec(), vec![1; length]).unwrap_err();
        assert!(matches!(error, FastCryptoError::Generic { .. }));
        assert_eq!(error.message(), "Invalid value was given to the function");
    }
}

#[test]
fn ed25519_verify_reads_any_buffer_of_signature_length() {
    let pair = Ed25519KeyPairWrapper::generate();
    assert_eq!(pair.verify(b"message".to_vec(), vec![0; 64]).unwrap(), false);
    assert_eq!(pair.verify(b"message".to_vec(), vec![0xff; 64]).unwrap(), false);
}

#[test]
fn ed25519_from_bytes_rejects_wrong_lengths() {
    for length in [0usize, 1, 31, 33, 64] {
        let error = match Ed25519KeyPairWrapper::from_bytes(vec![7; length]) {
            Ok(_) => panic!("a buffer of {} bytes was taken for a private key", length),
            Err(error) => error,
        };
        assert!(matches!(error, FastCryptoError::Generic { .. }));
        assert_eq!(error.message(), "Invalid value was given to the function");
    }
}

#[test]
fn ed25519_from_bytes_takes_any_thirty_two_bytes() {
    assert!(Ed25519KeyPairWrapper::from_bytes(vec![0; 32]).is_ok());
    assert!(Ed25519KeyPairWrapper::from_bytes(vec![0xff; 32]).is_ok());
}

#[test]
fn ed25519_reloading_keeps_the_public_key() {
    let first = Ed25519KeyPairWrapper::from_bytes(vec![42; 32]).unwrap();
    let second = Ed25519KeyPairWrapper::from_bytes(vec![42; 32]).unwrap();
    assert_eq!(first.public_key(), second.public_key());
    assert_eq!(first.public_key().len(), ED25519_PUBLIC_KEY_LENGTH);
    let signature = first.sign(b"shared".to_vec());
    assert_eq!(second.verify(b"shared".to_vec(), signature).unwrap(), true);
}

#[test]
fn ed25519_public_key_matches_the_primitive() {
    let seed = vec![9u8; 32];
    let theirs = fastcrypto::ed25519::Ed25519KeyPair::from_bytes(&seed).unwrap();
    let ours = Ed25519KeyPairWrapper::from_bytes(seed).unwrap();
    assert_eq!(ours.public_key(), theirs.public().as_bytes().to_vec());
}

#[test]
fn ed25519_generated_pairs_differ() {
    let first = Ed25519KeyPairWrapper::generate();
    let second = Ed25519KeyPairWrapper::generate();
    assert_ne!(first.public_key(), second.public_key());
    assert_ne!(first.sign(b"m".to_vec()), second.sign(b"m".to_vec()));
}
