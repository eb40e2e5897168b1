//! The data the verifier works on: keys, proofs, and errors.

use vstd::prelude::*;
use crate::curve::{G1Point, G2Point, GtElement, PreparedG2};

verus! {

/// Public parameters fixed at setup time, needed to check any proof for
/// a given circuit. The coefficient sequence for the inputs classified
/// "static" carries the constant term at index 0, so its length is one
/// more than the number of static inputs; the sequence for the inputs
/// classified "variable" carries no constant term, so its length equals
/// the number of variable inputs exactly.
pub struct VerifyingKey {
    /// The first-group generator scaled by the secret "alpha".
    pub alpha_g1: G1Point,
    /// The second-group generator scaled by the secret "beta".
    pub beta_g2: G2Point,
    /// The second-group generator scaled by the secret "gamma".
    pub gamma_g2: G2Point,
    /// The second-group generator scaled by the secret "delta".
    pub delta_g2: G2Point,
    /// Coefficients for the constant term and the static public inputs.
    pub gamma_abc_g1_static: Vec<G1Point>,
    /// Coefficients for the variable public inputs.
    pub gamma_abc_g1_variable: Vec<G1Point>,
}

/// The mathematical value of a [`VerifyingKey`]: its points, with the
/// two coefficient vectors as sequences.
pub ghost struct VerifyingKeyView {
    pub alpha_g1: G1Point,
    pub beta_g2: G2Point,
    pub gamma_g2: G2Point,
    pub delta_g2: G2Point,
    pub gamma_abc_g1_static: Seq<G1Point>,
    pub gamma_abc_g1_variable: Seq<G1Point>,
}

impl View for VerifyingKey {
    type V = VerifyingKeyView;

    open spec fn view(&self) -> VerifyingKeyView {
        VerifyingKeyView {
            alpha_g1: self.alpha_g1,
            beta_g2: self.beta_g2,
            gamma_g2: self.gamma_g2,
            delta_g2: self.delta_g2,
            gamma_abc_g1_static: self.gamma_abc_g1_static@,
            gamma_abc_g1_variable: self.gamma_abc_g1_variable@,
        }
    }
}

/// A verifying key precomputed for repeated verification: the pairing of
/// the alpha and beta elements, evaluated once, and the negations of the
/// gamma and delta elements in pairing-ready form. Derived from a
/// [`VerifyingKey`] by [`crate::verification::prepare_verifying_key`] and
/// never mutated afterwards.
pub struct PreparedVerifyingKey {
    /// A copy of the verifying key the preparation started from.
    pub vk: VerifyingKey,
    /// The pairing of the alpha and beta elements, in the target field.
    pub alpha_g1_beta_g2: GtElement,
    /// The negated gamma element, precomputed for pairing evaluation.
    pub gamma_g2_neg_pc: PreparedG2,
    /// The negated delta element, precomputed for pairing evaluation.
    pub delta_g2_neg_pc: PreparedG2,
}

/// The mathematical value of a [`PreparedVerifyingKey`].
pub ghost struct PreparedVerifyingKeyView {
    pub vk: VerifyingKeyView,
    pub alpha_g1_beta_g2: GtElement,
    pub gamma_g2_neg_pc: PreparedG2,
    pub delta_g2_neg_pc: PreparedG2,
}

impl View for PreparedVerifyingKey {
    type V = PreparedVerifyingKeyView;

    open spec fn view(&self) -> PreparedVerifyingKeyView {
        PreparedVerifyingKeyView {
            vk: self.vk@,
            alpha_g1_beta_g2: self.alpha_g1_beta_g2,
            gamma_g2_neg_pc: self.gamma_g2_neg_pc,
            delta_g2_neg_pc: self.delta_g2_neg_pc,
        }
    }
}

/// A proof produced by the prover: three group elements.
pub struct Proof {
    /// The first-group element "A".
    pub a: G1Point,
    /// The second-group element "B".
    pub b: G2Point,
    /// The first-group element "C".
    pub c: G1Point,
}

/// The ways a verification call can fail. A rejected proof is not an
/// error: rejection is the ordinary result `false`.
#[derive(Clone, Copy, Debug, PartialEq, Eq, Structural)]
pub enum Error {
    /// An input vector's length does not match the corresponding
    /// coefficient sequence of the verifying key. Detected before any
    /// arithmetic is attempted.
    MalformedVerifyingKey,
    /// The final exponentiation could not produce a meaningful result
    /// from the multi-pairing output.
    UnexpectedIdentity,
}

} // verus!
