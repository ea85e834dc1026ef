//! A uniform facade over digests, hex text and four signature schemes.
//!
//! Every operation exchanges plain byte sequences. The arithmetic of the
//! primitives is done by `fastcrypto` and `hex`; what this crate adds, and
//! proves, is the dispatch, the validation gates and the flattening of every
//! failure into one reportable error.

pub mod bls12381;
pub mod diagnostics;
pub mod digest;
pub mod ed25519;
pub mod error;
pub mod hex_codec;
pub mod secp256k1;
pub mod secp256r1;

pub use bls12381::BLS12381KeyPairWrapper;
pub use digest::{hash, HashType};
pub use ed25519::Ed25519KeyPairWrapper;
pub use error::FastCryptoError;
pub use hex_codec::{hex_decode, hex_encode};
pub use secp256k1::Secp256k1KeyPairWrapper;
pub use secp256r1::Secp256r1KeyPairWrapper;
