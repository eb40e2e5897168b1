//! Preparing a verifying key and checking proofs against it.

use vstd::prelude::*;
use crate::curve::{
    final_exponentiation, g1_add, g1_copy, g1_into_group, g1_mul_scalar, g2_copy, gt_eq,
    miller_loop1, miller_loop3, negate_and_prepare_g2, spec_add, spec_final_exp,
    spec_miller_loop1, spec_miller_loop3, spec_mul, spec_neg_prepared, spec_prepared_g2_complete,
    spec_to_projective, G1Element, G1Point, Scalar,
};
use crate::data_structures::{
    Error, PreparedVerifyingKey, PreparedVerifyingKeyView, Proof, VerifyingKey, VerifyingKeyView,
};

verus! {

/// Whether the pairing of the key's alpha and beta elements is defined:
/// the final exponentiation of their Miller loop has a result. It does
/// for every pair of genuine group elements; only point values forged
/// outside the curve can make the Miller loop degenerate.
pub open spec fn alpha_beta_pairing_defined(vk: VerifyingKeyView) -> bool {
    spec_final_exp(spec_miller_loop1(vk.alpha_g1, vk.beta_g2)) is Some
}

/// The prepared form of a verifying key: the alpha-beta pairing evaluated
/// once, and the gamma and delta elements negated into pairing-ready
/// form. Preparation is a function of the key's value alone.
pub open spec fn spec_prepare(vk: VerifyingKeyView) -> PreparedVerifyingKeyView {
    PreparedVerifyingKeyView {
        vk,
        alpha_g1_beta_g2: spec_final_exp(spec_miller_loop1(vk.alpha_g1, vk.beta_g2)).unwrap(),
        gamma_g2_neg_pc: spec_neg_prepared(vk.gamma_g2),
        delta_g2_neg_pc: spec_neg_prepared(vk.delta_g2),
    }
}

/// Whether the prepared key's negated gamma and delta elements carry the
/// complete line-coefficient tables that preparation computes. Every key
/// built by [`prepare_verifying_key`] satisfies this; the pairing check
/// is defined only for such keys.
pub open spec fn prepared_key_complete(pvk: PreparedVerifyingKeyView) -> bool {
    &&& spec_prepared_g2_complete(pvk.gamma_g2_neg_pc)
    &&& spec_prepared_g2_complete(pvk.delta_g2_neg_pc)
}

/// The first `n` steps of the multi-scalar accumulation: starting from
/// `start`, each coefficient scaled by its input is added, in sequence
/// order.
pub open spec fn spec_accumulate(
    start: G1Element,
    coeffs: Seq<G1Point>,
    inputs: Seq<Scalar>,
    n: int,
) -> G1Element
    decreases n,
{
    if n <= 0 {
        start
    } else {
        spec_add(spec_accumulate(start, coeffs, inputs, n - 1), spec_mul(coeffs[n - 1], inputs[n - 1]))
    }
}

/// Whether the two input vectors fit the key's two coefficient
/// sequences: the static inputs fill the static sequence but for its
/// constant term, and the variable inputs fill the variable sequence
/// exactly.
pub open spec fn inputs_well_sized(
    vk: VerifyingKeyView,
    static_inputs: Seq<Scalar>,
    variable_inputs: Seq<Scalar>,
) -> bool {
    &&& static_inputs.len() + 1 == vk.gamma_abc_g1_static.len()
    &&& variable_inputs.len() == vk.gamma_abc_g1_variable.len()
}

/// The aggregated public-input element: the static sequence's constant
/// term, plus each further static coefficient scaled by its input, plus
/// each variable coefficient scaled by its input.
pub open spec fn spec_prepared_inputs(
    vk: VerifyingKeyView,
    static_inputs: Seq<Scalar>,
    variable_inputs: Seq<Scalar>,
) -> G1Element {
    let after_static = spec_accumulate(
        spec_to_projective(vk.gamma_abc_g1_static[0]),
        vk.gamma_abc_g1_static.skip(1),
        static_inputs,
        static_inputs.len() as int,
    );
    spec_accumulate(
        after_static,
        vk.gamma_abc_g1_variable,
        variable_inputs,
        variable_inputs.len() as int,
    )
}

/// The outcome of the pairing check on an already-aggregated input
/// element: the three-term Miller loop is evaluated, the final
/// exponentiation applied, and the result compared against the
/// precomputed alpha-beta pairing; a degenerate intermediate value is
/// the error, not a rejection.
pub open spec fn spec_check(
    pvk: PreparedVerifyingKeyView,
    proof: Proof,
    prepared_inputs: G1Element,
) -> Result<bool, Error> {
    let f = spec_miller_loop3(
        proof.a,
        proof.b,
        prepared_inputs,
        pvk.gamma_g2_neg_pc,
        proof.c,
        pvk.delta_g2_neg_pc,
    );
    match spec_final_exp(f) {
        Some(t) => Ok(t == pvk.alpha_g1_beta_g2),
        None => Err(Error::UnexpectedIdentity),
    }
}

/// The outcome of a verification from raw inputs: the length checks
/// first, then aggregation, then the pairing check.
pub open spec fn spec_verify(
    pvk: PreparedVerifyingKeyView,
    proof: Proof,
    static_inputs: Seq<Scalar>,
    variable_inputs: Seq<Scalar>,
) -> Result<bool, Error> {
    if inputs_well_sized(pvk.vk, static_inputs, variable_inputs) {
        spec_check(pvk, proof, spec_prepared_inputs(pvk.vk, static_inputs, variable_inputs))
    } else {
        Err(Error::MalformedVerifyingKey)
    }
}

/// Copies a coefficient vector point by point.
fn copy_points(v: &Vec<G1Point>) -> (r: Vec<G1Point>)
    ensures
        r@ == v@,
{
    let mut r: Vec<G1Point> = Vec::new();
    let mut i: usize = 0;
    while i < v.len()
        invariant
            i <= v.len(),
            r@ == v@.take(i as int),
        decreases v.len() - i,
    {
        r.push(g1_copy(&v[i]));
        i += 1;
    }
    r
}

/// Copies a verifying key field by field.
fn copy_verifying_key(vk: &VerifyingKey) -> (r: VerifyingKey)
    ensures
        r@ == vk@,
{
    VerifyingKey {
        alpha_g1: g1_copy(&vk.alpha_g1),
        beta_g2: g2_copy(&vk.beta_g2),
        gamma_g2: g2_copy(&vk.gamma_g2),
        delta_g2: g2_copy(&vk.delta_g2),
        gamma_abc_g1_static: copy_points(&vk.gamma_abc_g1_static),
        gamma_abc_g1_variable: copy_points(&vk.gamma_abc_g1_variable),
    }
}

/// Prepare the verifying key `vk` for use in proof verification, where
/// its alpha-beta pairing is defined, and report the degenerate case
/// instead of preparing: the pairing of the alpha and beta elements is
/// evaluated once, and the gamma and delta elements are negated into
/// pairing-ready form.
pub fn try_prepare_verifying_key(vk: &VerifyingKey) -> (r: Option<PreparedVerifyingKey>)
    ensures
        r is Some <==> alpha_beta_pairing_defined(vk@),
        r is Some ==> (r.unwrap()@ == spec_prepare(vk@) && prepared_key_complete(r.unwrap()@)),
{
    let ml = miller_loop1(&vk.alpha_g1, &vk.beta_g2);
    match final_exponentiation(&ml) {
        Some(alpha_beta) => Some(
            PreparedVerifyingKey {
                vk: copy_verifying_key(vk),
                alpha_g1_beta_g2: alpha_beta,
                gamma_g2_neg_pc: negate_and_prepare_g2(&vk.gamma_g2),
                delta_g2_neg_pc: negate_and_prepare_g2(&vk.delta_g2),
            },
        ),
        None => None,
    }
}

/// Prepare the verifying key `vk` for use in proof verification: evaluate
/// the pairing of the alpha and beta elements once, and negate the gamma
/// and delta elements into pairing-ready form. Deterministic and without
/// side effects; succeeds on every key whose alpha-beta pairing is
/// defined, which genuine group elements always are.
pub fn prepare_verifying_key(vk: &VerifyingKey) -> (r: PreparedVerifyingKey)
    requires
        alpha_beta_pairing_defined(vk@),
    ensures
        r@ == spec_prepare(vk@),
        prepared_key_complete(r@),
{
    try_prepare_verifying_key(vk).unwrap()
}

/// Preparing a verifying key is deterministic: the prepared key is a
/// function of the key's value alone, so preparations of equal keys are
/// equal in every field.
pub proof fn lemma_prepare_verifying_key_deterministic(
    vk1: VerifyingKeyView,
    vk2: VerifyingKeyView,
)
    requires
        vk1 == vk2,
    ensures
        spec_prepare(vk1) == spec_prepare(vk2),
{
}

/// Aggregating the inputs first and checking the proof against the
/// aggregate afterwards decides exactly as the combined entry point
/// does: on well-sized inputs the two agree, and on ill-sized inputs
/// the combined entry point fails as the aggregation alone would.
pub proof fn lemma_verify_entry_points_agree(
    pvk: PreparedVerifyingKeyView,
    proof: Proof,
    static_inputs: Seq<Scalar>,
    variable_inputs: Seq<Scalar>,
)
    ensures
        inputs_well_sized(pvk.vk, static_inputs, variable_inputs) ==> spec_verify(
            pvk,
            proof,
            static_inputs,
            variable_inputs,
        ) == spec_check(
            pvk,
            proof,
            spec_prepared_inputs(pvk.vk, static_inputs, variable_inputs),
        ),
        !inputs_well_sized(pvk.vk, static_inputs, variable_inputs) ==> spec_verify(
            pvk,
            proof,
            static_inputs,
            variable_inputs,
        ) == Result::<bool, Error>::Err(Error::MalformedVerifyingKey),
{
}

/// The verification path of Groth16: input aggregation and the pairing
/// check.
pub struct Groth16;

impl Groth16 {
    /// Aggregate the static and variable public inputs into a single
    /// first-group element, each scalar weighted by its coefficient in
    /// the verifying key, starting from the static sequence's constant
    /// term. Fails with [`Error::MalformedVerifyingKey`], before any
    /// arithmetic, if and only if either input vector's length does not
    /// fit the key.
    pub fn prepare_inputs_with_variables(
        pvk: &PreparedVerifyingKey,
        static_inputs: &[Scalar],
        variable_inputs: &[Scalar],
    ) -> (r: Result<G1Element, Error>)
        ensures
            r == (if inputs_well_sized(pvk@.vk, static_inputs@, variable_inputs@) {
                Result::<G1Element, Error>::Ok(
                    spec_prepared_inputs(pvk@.vk, static_inputs@, variable_inputs@),
                )
            } else {
                Result::<G1Element, Error>::Err(Error::MalformedVerifyingKey)
            }),
    {
        let n_static = pvk.vk.gamma_abc_g1_static.len();
        if n_static == 0 || static_inputs.len() != n_static - 1 {
            return Err(Error::MalformedVerifyingKey);
        }
        if variable_inputs.len() != pvk.vk.gamma_abc_g1_variable.len() {
            return Err(Error::MalformedVerifyingKey);
        }
        // Start with the constant term.
        let mut g_ic = g1_into_group(&pvk.vk.gamma_abc_g1_static[0]);
        let ghost start = g_ic;
        let mut i: usize = 0;
        while i < static_inputs.len()
            invariant
                i <= static_inputs@.len(),
                static_inputs@.len() + 1 == pvk@.vk.gamma_abc_g1_static.len(),
                g_ic == spec_accumulate(
                    start,
                    pvk@.vk.gamma_abc_g1_static.skip(1),
                    static_inputs@,
                    i as int,
                ),
            decreases static_inputs@.len() - i,
        {
            let term = g1_mul_scalar(&pvk.vk.gamma_abc_g1_static[i + 1], &static_inputs[i]);
            g_ic = g1_add(&g_ic, &term);
            i += 1;
        }
        let ghost after_static = g_ic;
        let mut j: usize = 0;
        while j < variable_inputs.len()
            invariant
                j <= variable_inputs@.len(),
                variable_inputs@.len() == pvk@.vk.gamma_abc_g1_variable.len(),
                g_ic == spec_accumulate(
                    after_static,
                    pvk@.vk.gamma_abc_g1_variable,
                    variable_inputs@,
                    j as int,
                ),
            decreases variable_inputs@.len() - j,
        {
            let term = g1_mul_scalar(&pvk.vk.gamma_abc_g1_variable[j], &variable_inputs[j]);
            g_ic = g1_add(&g_ic, &term);
            j += 1;
        }
        Ok(g_ic)
    }

    /// Verify a proof against the prepared key with the public inputs
    /// split into their static and variable classes: aggregate them,
    /// then run the pairing check. A `false` result is a rejected proof,
    /// not an error. The key must be complete, which every key built by
    /// [`prepare_verifying_key`] is.
    pub fn verify_with_variables(
        pvk: &PreparedVerifyingKey,
        proof: &Proof,
        static_inputs: &[Scalar],
        variable_inputs: &[Scalar],
    ) -> (r: Result<bool, Error>)
        requires
            prepared_key_complete(pvk@),
        ensures
            r == spec_verify(pvk@, *proof, static_inputs@, variable_inputs@),
    {
        let prepared_inputs =
            match Self::prepare_inputs_with_variables(pvk, static_inputs, variable_inputs) {
                Ok(g) => g,
                Err(e) => {
                    return Err(e);
                },
            };
        Self::verify_proof_with_prepared_inputs(pvk, proof, &prepared_inputs)
    }

    /// Verify a proof against the prepared key and an already-aggregated
    /// public-input element: evaluate the three-term multi-pairing,
    /// apply the final exponentiation, and compare against the
    /// precomputed alpha-beta pairing. Equality accepts the proof;
    /// inequality rejects it; a degenerate intermediate value fails with
    /// [`Error::UnexpectedIdentity`]. The key must be complete, which
    /// every key built by [`prepare_verifying_key`] is.
    pub fn verify_proof_with_prepared_inputs(
        pvk: &PreparedVerifyingKey,
        proof: &Proof,
        prepared_inputs: &G1Element,
    ) -> (r: Result<bool, Error>)
        requires
            prepared_key_complete(pvk@),
        ensures
            r == spec_check(pvk@, *proof, *prepared_inputs),
    {
        let qap = miller_loop3(
            &proof.a,
            &proof.b,
            prepared_inputs,
            &pvk.gamma_g2_neg_pc,
            &proof.c,
            &pvk.delta_g2_neg_pc,
        );
        match final_exponentiation(&qap) {
            Some(t) => Ok(gt_eq(&t, &pvk.alpha_g1_beta_g2)),
            None => Err(Error::UnexpectedIdentity),
        }
    }
}

} // verus!
