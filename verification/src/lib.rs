//! Groth16 proof verification over the BN254 pairing-friendly curve.
//!
//! The library prepares a verifying key for repeated use, aggregates
//! public input scalars (split into a static and a variable class) into a
//! single group element, and decides a proof by a three-term multi-pairing
//! check. Curve and field arithmetic is delegated to the arkworks crates;
//! the validation, accumulation and orchestration logic is verified.

pub mod curve;
pub mod data_structures;
pub mod verification;

pub use curve::{G1Element, G1Point, G2Point, GtElement, PreparedG2, Scalar};
pub use data_structures::{Error, PreparedVerifyingKey, Proof, VerifyingKey};
pub use verification::{prepare_verifying_key, try_prepare_verifying_key, Groth16};
