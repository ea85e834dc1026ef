use crypto_facade::{
    BLS12381KeyPairWrapper, Ed25519KeyPairWrapper, Secp256k1KeyPairWrapper,
    Secp256r1KeyPairWrapper,
};

fn never_true(outcome: Result<bool, crypto_facade::FastCryptoError>) {
    match outcome {
        Ok(authentic) => assert!(!authentic),
        Err(error) => assert!(!error.message().is_empty()),
    }
}

#[test]
fn an_ed25519_signature_is_worth_nothing_elsewhere() {
    let message = b"cross".to_vec();
    let signature = Ed25519KeyPairWrapper::generate().sign(message.clone());
    never_true(Secp256k1KeyPairWrapper::generate().verify(message.clone(), signature.clone()));
    never_true(Secp256r1KeyPairWrapper::generate().verify(message.clone(), signature.clone()));
    assert!(BLS12381KeyPairWrapper::generate().verify(message, signature).is_err());
}

#[test]
fn a_secp256k1_signature_is_worth_nothing_elsewhere() {
    let message = b"cross".to_vec();
    let signature = Secp256k1KeyPairWrapper::generate().sign(message.clone());
    never_true(Ed25519KeyPairWrapper::generate().verify(message.clone(), signature.clone()));
    never_true(Secp256r1KeyPairWrapper::generate().verify(message.clone(), signature.clone()));
    assert!(BLS12381KeyPairWrapper::generate().verify(message, signature).is_err());
}

#[test]
fn a_secp256r1_signature_is_worth_nothing_elsewhere() {
    let message = b"cross".to_vec();
    let signature = Secp256r1KeyPairWrapper::generate().sign(message.clone());
    never_true(Ed25519KeyPairWrapper::generate().verify(message.clone(), signature.clone()));
    never_true(Secp256k1KeyPairWrapper::generate().verify(message.clone(), signature.clone()));
    assert!(BLS12381KeyPairWrapper::generate().verify(message, signature).is_err());
}

#[test]
fn a_bls12381_signature_is_worth_nothing_elsewhere() {
    let message = b"cross".to_vec();
    let signature = BLS12381KeyPairWrapper::generate().sign(message.clone());
    assert!(Ed25519KeyPairWrapper::generate().verify(message.clone(), signature.clone()).is_err());
    assert!(Secp256k1KeyPairWrapper::generate().verify(message.clone(), signature.clone()).is_err());
    assert!(Secp256r1KeyPairWrapper::generate().verify(message, signature).is_err());
}

#[test]
fn the_same_private_bytes_give_unrelated_keys_per_scheme() {
    let secret = vec![5u8; 32];
    let ed25519 = Ed25519KeyPairWrapper::from_bytes(secret.clone()).unwrap();
    let secp256k1 = Secp256k1KeyPairWrapper::from_bytes(secret.clone()).unwrap();
    let secp256r1 = Secp256r1KeyPairWrapper::from_bytes(secret.clone()).unwrap();
    let bls12381 = BLS12381KeyPairWrapper::from_bytes(secret).unwrap();
    let message = b"cross".to_vec();
    never_true(secp256r1.verify(message.clone(), secp256k1.sign(message.clone())));
    never_true(secp256k1.verify(message.clone(), secp256r1.sign(message.clone())));
    never_true(secp256k1.verify(message.clone(), ed25519.sign(message.clone())));
    never_true(ed25519.verify(message.clone(), secp256r1.sign(message.clone())));
    assert_ne!(secp256k1.public_key(), secp256r1.public_key());
    assert_ne!(ed25519.public_key(), bls12381.public_key());
}
