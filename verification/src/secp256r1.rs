//! ECDSA key pairs over secp256r1, the NIST curve P-256.
//!
//! A key pair owns the 32 bytes of its private scalar and nothing else; the
//! compressed public key and every signature are derived from them on
//! demand. Messages are hashed with SHA-256 before they are signed.

use crate::diagnostics::{expected_32_text, expected_64_text, invalid_input_text};
use crate::error::FastCryptoError;
use fastcrypto::secp256r1::{Secp256r1KeyPair, Secp256r1Signature};
use fastcrypto::traits::{KeyPair, Signer, ToFromBytes, VerifyingKey};
use rand::thread_rng;
use vstd::prelude::*;

verus! {

/// The number of bytes in a private key.
pub const SECP256R1_PRIVATE_KEY_LENGTH: usize = 32;

/// The number of bytes in a public key.
pub const SECP256R1_PUBLIC_KEY_LENGTH: usize = 33;

/// The number of bytes in a signature.
pub const SECP256R1_SIGNATURE_LENGTH: usize = 64;

/// The public key that belongs to a private key.
pub uninterp spec fn secp256r1_public_key(secret: Seq<u8>) -> Seq<u8>;

/// The signature of `msg` under a private key. The nonce is derived from key
/// and message, so the signature is a function of the two.
pub uninterp spec fn secp256r1_signature(secret: Seq<u8>, msg: Seq<u8>) -> Seq<u8>;

/// Whether `signature` is authentic for `msg` under a public key.
pub uninterp spec fn secp256r1_verifies(public: Seq<u8>, msg: Seq<u8>, signature: Seq<u8>) -> bool;

/// Whether 32 bytes, read as a big-endian number, are a private scalar of
/// the curve: what `elliptic_curve::SecretKey::from_bytes` decides of them.
pub uninterp spec fn secp256r1_scalar_accepted(bytes: Seq<u8>) -> bool;

/// Whether 64 bytes are a signature, two scalars side by side: what
/// `ecdsa::Signature::from_slice` decides of them.
pub uninterp spec fn secp256r1_scalars_accepted(bytes: Seq<u8>) -> bool;

/// `bytes` behind as many zero bytes as it takes to make 32.
pub open spec fn zero_padded(bytes: Seq<u8>) -> Seq<u8> {
    Seq::new((SECP256R1_PRIVATE_KEY_LENGTH - bytes.len()) as nat, |i: int| 0u8) + bytes
}

/// The diagnostic for bytes offered as a private key, `None` when they are
/// one: the right length, and a scalar of the curve.
///
/// The scalar parser underneath pads a buffer of 24 to 31 bytes with zeros;
/// where that gives a scalar, the complaint is about the length.
pub open spec fn secp256r1_secret_fault(bytes: Seq<u8>) -> Option<Seq<char>> {
    if bytes.len() == SECP256R1_PRIVATE_KEY_LENGTH {
        if secp256r1_scalar_accepted(bytes) {
            None
        } else {
            Some(invalid_input_text())
        }
    } else if 24 <= bytes.len() < SECP256R1_PRIVATE_KEY_LENGTH && secp256r1_scalar_accepted(
        zero_padded(bytes),
    ) {
        Some(expected_32_text())
    } else {
        Some(invalid_input_text())
    }
}

/// The diagnostic for bytes offered as a signature, `None` when they have the
/// format of one. The length is looked at first; whether the signature is
/// authentic is a separate question.
pub open spec fn secp256r1_signature_fault(bytes: Seq<u8>) -> Option<Seq<char>> {
    if bytes.len() != SECP256R1_SIGNATURE_LENGTH {
        Some(expected_64_text())
    } else if secp256r1_scalars_accepted(bytes) {
        None
    } else {
        Some(invalid_input_text())
    }
}

/// Trusted: `Secp256r1KeyPair::generate` on `rand::thread_rng`, and the bytes
/// of the new private key. Which key comes out is left open; that it loads
/// again is what `KeyPair::private` itself relies on.
#[verifier::external_body]
fn fresh_secret() -> (secret: Vec<u8>)
    ensures
        secret@.len() == SECP256R1_PRIVATE_KEY_LENGTH,
        secp256r1_scalar_accepted(secret@),
{
    Secp256r1KeyPair::generate(&mut thread_rng()).as_bytes().to_vec()
}

/// Trusted: `Secp256r1KeyPair::from_bytes`, with a rejection rendered by the
/// `Display` of its error. The parser hands the bytes to
/// `SecretKey::from_slice`, which reads 32 bytes as they are and 24 to 31
/// behind zeros; what that refuses is `InvalidInput`, and what it takes at
/// another length than 32 is `InputLengthWrong`.
#[verifier::external_body]
fn check_secret(bytes: &[u8]) -> (r: Result<(), String>)
    ensures
        r is Ok <==> (bytes@.len() == SECP256R1_PRIVATE_KEY_LENGTH && secp256r1_scalar_accepted(
            bytes@,
        )),
        r matches Err(msg) ==> msg@ == (if 24 <= bytes@.len() < SECP256R1_PRIVATE_KEY_LENGTH
            && secp256r1_scalar_accepted(zero_padded(bytes@)) {
            expected_32_text()
        } else {
            invalid_input_text()
        }),
{
    match Secp256r1KeyPair::from_bytes(bytes) {
        Ok(_) => Ok(()),
        Err(e) => Err(e.to_string()),
    }
}

/// Trusted: `KeyPair::public` of the key pair loaded from `secret`, as
/// bytes. The public key depends on the private key alone.
#[verifier::external_body]
fn derive_public(secret: &[u8]) -> (out: Vec<u8>)
    requires
        secp256r1_secret_fault(secret@) is None,
    ensures
        out@ == secp256r1_public_key(secret@),
        out@.len() == SECP256R1_PUBLIC_KEY_LENGTH,
{
    Secp256r1KeyPair::from_bytes(secret).unwrap().public().as_bytes().to_vec()
}

/// Trusted: `Signer::sign` of the key pair loaded from `secret`, as bytes.
/// The signature has the format of one, and the signer's own public key
/// verifies it.
#[verifier::external_body]
fn sign_with(secret: &[u8], msg: &[u8]) -> (out: Vec<u8>)
    requires
        secp256r1_secret_fault(secret@) is None,
    ensures
        out@ == secp256r1_signature(secret@, msg@),
        out@.len() == SECP256R1_SIGNATURE_LENGTH,
        secp256r1_scalars_accepted(out@),
        secp256r1_verifies(secp256r1_public_key(secret@), msg@, out@),
{
    Secp256r1KeyPair::from_bytes(secret).unwrap().sign(msg).as_bytes().to_vec()
}

/// Trusted: `Secp256r1Signature::from_bytes`, with a rejection rendered by
/// the `Display` of its error. A length other than 64 is `InputLengthWrong`;
/// after that, what `ecdsa::Signature` refuses is `InvalidInput`.
#[verifier::external_body]
fn check_signature(bytes: &[u8]) -> (r: Result<(), String>)
    ensures
        r is Ok <==> (bytes@.len() == SECP256R1_SIGNATURE_LENGTH && secp256r1_scalars_accepted(
            bytes@,
        )),
        r matches Err(msg) ==> msg@ == (if bytes@.len() != SECP256R1_SIGNATURE_LENGTH {
            expected_64_text()
        } else {
            invalid_input_text()
        }),
{
    match Secp256r1Signature::from_bytes(bytes) {
        Ok(_) => Ok(()),
        Err(e) => Err(e.to_string()),
    }
}

/// Trusted: `VerifyingKey::verify` of the public key of the key pair loaded
/// from `secret`, on the parsed signature. An inauthentic signature is an
/// answer, not a failure.
#[verifier::external_body]
fn verify_with(secret: &[u8], msg: &[u8], signature: &[u8]) -> (authentic: bool)
    requires
        secp256r1_secret_fault(secret@) is None,
        secp256r1_signature_fault(signature@) is None,
    ensures
        authentic == secp256r1_verifies(secp256r1_public_key(secret@), msg@, signature@),
{
    let pair = Secp256r1KeyPair::from_bytes(secret).unwrap();
    let parsed = Secp256r1Signature::from_bytes(signature).unwrap();
    pair.public().verify(msg, &parsed).is_ok()
}

/// A secp256r1 key pair: immutable from construction on.
pub struct Secp256r1KeyPairWrapper {
    secret: Vec<u8>,
}

impl Secp256r1KeyPairWrapper {
    #[verifier::type_invariant]
    spec fn holds_private_key(self) -> bool {
        secp256r1_secret_fault(self.secret@) is None
    }

    /// The private key that this pair owns.
    pub closed spec fn secret(self) -> Seq<u8> {
        self.secret@
    }

    /// The public key of this pair.
    pub open spec fn public(self) -> Seq<u8> {
        secp256r1_public_key(self.secret())
    }

    /// Whether `signature` is authentic for `msg` under this pair's public
    /// key.
    pub open spec fn accepts(self, msg: Seq<u8>, signature: Seq<u8>) -> bool {
        secp256r1_verifies(self.public(), msg, signature)
    }

    /// Draws a fresh key pair from the thread's secure random source.
    pub fn generate() -> (pair: Self)
        ensures
            secp256r1_secret_fault(pair.secret()) is None,
    {
        Secp256r1KeyPairWrapper { secret: fresh_secret() }
    }

    /// Loads a key pair from the bytes of its private key.
    ///
    /// This is the validation gate: bytes that are no private key never
    /// become a key pair, and a buffer of any length but
    /// `SECP256R1_PRIVATE_KEY_LENGTH` is no private key.
    pub fn from_bytes(bytes: Vec<u8>) -> (r: Result<Self, FastCryptoError>)
        ensures
            r is Ok <==> secp256r1_secret_fault(bytes@) is None,
            r matches Ok(pair) ==> pair.secret() == bytes@,
            r matches Err(e) ==> secp256r1_secret_fault(bytes@) == Some(e.text()),
            bytes@.len() != SECP256R1_PRIVATE_KEY_LENGTH ==> r is Err,
    {
        match FastCryptoError::flatten(check_secret(bytes.as_slice())) {
            Ok(_) => Ok(Secp256r1KeyPairWrapper { secret: bytes }),
            Err(e) => Err(e),
        }
    }

    /// The public key, derived from the private key held.
    pub fn public_key(&self) -> (out: Vec<u8>)
        ensures
            out@ == self.public(),
            out@.len() == SECP256R1_PUBLIC_KEY_LENGTH,
    {
        proof {
            use_type_invariant(self);
        }
        derive_public(self.secret.as_slice())
    }

    /// Signs `msg`, which may be empty. The signature is well-formed and this
    /// pair accepts it.
    pub fn sign(&self, msg: Vec<u8>) -> (out: Vec<u8>)
        ensures
            out@ == secp256r1_signature(self.secret(), msg@),
            out@.len() == SECP256R1_SIGNATURE_LENGTH,
            secp256r1_signature_fault(out@) is None,
            self.accepts(msg@, out@),
    {
        proof {
            use_type_invariant(self);
        }
        sign_with(self.secret.as_slice(), msg.as_slice())
    }

    /// Checks `signature` against `msg` under this pair's public key.
    ///
    /// An error means that the signature could not even be read; `Ok(false)`
    /// means that it was read and is not authentic.
    pub fn verify(&self, msg: Vec<u8>, signature: Vec<u8>) -> (r: Result<bool, FastCryptoError>)
        ensures
            r is Ok <==> secp256r1_signature_fault(signature@) is None,
            r matches Ok(authentic) ==> authentic == self.accepts(msg@, signature@),
            r matches Err(e) ==> secp256r1_signature_fault(signature@) == Some(e.text()),
    {
        proof {
            use_type_invariant(self);
        }
        match FastCryptoError::flatten(check_signature(signature.as_slice())) {
            Ok(_) => Ok(verify_with(self.secret.as_slice(), msg.as_slice(), signature.as_slice())),
            Err(e) => Err(e),
        }
    }
}

/// Loading is stable: two pairs that own the same private key have the same
/// public key and accept the same signatures, however each was made.
pub proof fn lemma_same_secret_same_public(
    first: Secp256r1KeyPairWrapper,
    second: Secp256r1KeyPairWrapper,
)
    requires
        first.secret() == second.secret(),
    ensures
        first.public() == second.public(),
        forall|msg: Seq<u8>, signature: Seq<u8>|
            first.accepts(msg, signature) == second.accepts(msg, signature),
{
}

} // verus!
