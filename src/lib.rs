//! Non-interactive Schnorr proofs of knowledge of a discrete logarithm over
//! secp256k1, made non-interactive with the Fiat-Shamir transform.
pub mod engine;
pub mod group;
pub mod hex_text;
pub mod transcript;

pub use engine::{DLogProof, DecodingError, DlogError, ProofRecord};
pub use group::{generate_random_number, Point, Scalar};
