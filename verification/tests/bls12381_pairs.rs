use crypto_facade::bls12381::{
    BLS12381_PRIVATE_KEY_LENGTH, BLS12381_PUBLIC_KEY_LENGTH, BLS12381_SIGNATURE_LENGTH,
    BLS12381_UNCOMPRESSED_SIGNATURE_LENGTH,
};
use crypto_facade::{hex_decode, BLS12381KeyPairWrapper, FastCryptoError};
use fastcrypto::traits::{KeyPair, Signer, ToFromBytes};

const ORDER: &str = "73eda753299d7d483339d80809a1d80553bda402fffe5bfeffffffff00000001";
const ORDER_LESS_ONE: &str = "73eda753299d7d483339d80809a1d80553bda402fffe5bfeffffffff00000000";
const GENERATOR_X: &str = "17f1d3a73197d7942695638c4fa9ac0fc3688c4f9774b905a14e3a3f171bac586c55e83ff97a1aeffb3af00adb22c6bb";
const GENERATOR_Y: &str = "08b3f481e3aaa0f1a09e30ed741d8ae4fcf5e095d5d00af600db18cb2c04b3edd03cc744a2888ae40caa232946c5e7e1";

fn bytes(text: &str) -> Vec<u8> {
    hex_decode(text.to_string()).unwrap()
}

fn one() -> Vec<u8> {
    let mut scalar = vec![0u8; 32];
    scalar[31] = 1;
    scalar
}

fn rejection(outcome: Result<BLS12381KeyPairWrapper, FastCryptoError>) -> String {
    match outcome {
        Ok(_) => panic!("bytes that are no private key were taken for one"),
        Err(error) => error.message(),
    }
}

#[test]
fn bls12381_lengths_agree_with_the_primitives() {
    assert_eq!(BLS12381_PRIVATE_KEY_LENGTH, fastcrypto::bls12381::BLS_PRIVATE_KEY_LENGTH);
    assert_eq!(BLS12381_PUBLIC_KEY_LENGTH, fastcrypto::bls12381::BLS_G2_LENGTH);
    assert_eq!(BLS12381_SIGNATURE_LENGTH, fastcrypto::bls12381::BLS_G1_LENGTH);
    assert_eq!(BLS12381_UNCOMPRESSED_SIGNATURE_LENGTH, 2 * BLS12381_SIGNATURE_LENGTH);
}

#[test]
fn bls12381_sign_then_verify_accepts() {
    let pair = BLS12381KeyPairWrapper::generate();
    let messages: Vec<Vec<u8>> = vec![vec![], vec![0], b"Hello, world!".to_vec(), vec![0xff; 4096]];
    for message in messages {
        let signature = pair.sign(message.clone());
        assert_eq!(signature.len(), BLS12381_SIGNATURE_LENGTH);
        assert_eq!(pair.verify(message, signature).unwrap(), true);
    }
}

#[test]
fn bls12381_signing_is_repeatable() {
    let pair = BLS12381KeyPairWrapper::from_bytes(one()).unwrap();
    assert_eq!(pair.sign(b"again".to_vec()), pair.sign(b"again".to_vec()));
}

#[test]
fn bls12381_signature_matches_the_primitive() {
    let theirs = fastcrypto::bls12381::min_sig::BLS12381KeyPair::from_bytes(&one()).unwrap();
    let ours = BLS12381KeyPairWrapper::from_bytes(one()).unwrap();
    assert_eq!(ours.public_key(), theirs.public().as_bytes().to_vec());
    assert_eq!(ours.public_key().len(), BLS12381_PUBLIC_KEY_LENGTH);
    assert_eq!(ours.sign(b"message".to_vec()), theirs.sign(b"message").as_bytes().to_vec());
}

#[test]
fn bls12381_verify_says_false_for_a_mismatch() {
    let pair = BLS12381KeyPairWrapper::generate();
    let other = BLS12381KeyPairWrapper::generate();
    let signature = pair.sign(b"one".to_vec());
    assert_eq!(pair.verify(b"two".to_vec(), signature.clone()).unwrap(), false);
    assert_eq!(other.verify(b"one".to_vec(), signature).unwrap(), false);
}

#[test]
fn bls12381_verify_fails_on_a_signature_of_wrong_length() {
    let pair = BLS12381KeyPairWrapper::generate();
    for length in [0usize, 1, 47, 49, 64, 95, 97] {
        let error = pair.verify(b"message".to_vec(), vec![0x80; length]).unwrap_err();
        assert!(matches!(error, FastCryptoError::Generic { .. }));
        assert_eq!(error.message(), "Invalid value was given to the function");
    }
}

#[test]
fn bls12381_verify_fails_on_bytes_that_are_no_point() {
    let pair = BLS12381KeyPairWrapper::generate();
    let error = pair.verify(b"message".to_vec(), vec![0xff; 48]).unwrap_err();
    assert_eq!(error.message(), "Invalid value was given to the function");
    let error = pair.verify(b"message".to_vec(), vec![0x01; 48]).unwrap_err();
    assert_eq!(error.message(), "Invalid value was given to the function");
}

#[test]
fn bls12381_verify_reads_a_compressed_point() {
    let pair = BLS12381KeyPairWrapper::generate();
    let mut generator = bytes(GENERATOR_X);
    generator[0] |= 0x80;
    assert_eq!(generator.len(), BLS12381_SIGNATURE_LENGTH);
    assert_eq!(pair.verify(b"message".to_vec(), generator).unwrap(), false);
}

#[test]
fn bls12381_verify_reads_a_point_written_out_in_full() {
    let pair = BLS12381KeyPairWrapper::generate();
    let mut generator = bytes(GENERATOR_X);
    generator.extend(bytes(GENERATOR_Y));
    assert_eq!(generator.len(), BLS12381_UNCOMPRESSED_SIGNATURE_LENGTH);
    assert_eq!(pair.verify(b"message".to_vec(), generator).unwrap(), false);
}

#[test]
fn bls12381_from_bytes_rejects_wrong_lengths() {
    for length in [0usize, 1, 24, 31, 33, 64] {
        assert_eq!(
            rejection(BLS12381KeyPairWrapper::from_bytes(vec![1; length])),
            "Invalid value was given to the function"
        );
    }
}

#[test]
fn bls12381_from_bytes_rejects_scalars_out_of_range() {
    assert_eq!(
        rejection(BLS12381KeyPairWrapper::from_bytes(vec![0; 32])),
        "Invalid value was given to the function"
    );
    assert_eq!(
        rejection(BLS12381KeyPairWrapper::from_bytes(bytes(ORDER))),
        "Invalid value was given to the function"
    );
    assert_eq!(
        rejection(BLS12381KeyPairWrapper::from_bytes(vec![0xff; 32])),
        "Invalid value was given to the function"
    );
    assert!(BLS12381KeyPairWrapper::from_bytes(bytes(ORDER_LESS_ONE)).is_ok());
}

#[test]
fn bls12381_reloading_keeps_the_public_key() {
    let first = BLS12381KeyPairWrapper::from_bytes(vec![42; 32]).unwrap();
    let second = BLS12381KeyPairWrapper::from_bytes(vec![42; 32]).unwrap();
    assert_eq!(first.public_key(), second.public_key());
    let signature = first.sign(b"shared".to_vec());
    assert_eq!(second.verify(b"shared".to_vec(), signature).unwrap(), true);
}

#[test]
fn bls12381_generated_pairs_differ() {
    let first = BLS12381KeyPairWrapper::generate();
    let second = BLS12381KeyPairWrapper::generate();
    assert_ne!(first.public_key(), second.public_key());
}
