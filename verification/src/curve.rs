//! Bindings to the arkworks BN254 curve arithmetic.
//!
//! The verifier never inspects a curve point or a field element: it only
//! threads them through the arithmetic primitives of the pairing. Each
//! value is therefore held in a small opaque struct, and each primitive
//! the verifier relies on is wrapped in one trusted function whose
//! contract names its result as a function of its arguments alone, so
//! that the contracts of the verification logic can speak of the
//! arithmetic exactly.

use vstd::prelude::*;
use ark_ec::pairing::Pairing;
use ark_ec::AffineRepr;
use ark_ec::CurveGroup;
use ark_ff::PrimeField;
use core::ops::Neg;

verus! {

/// An element of the BN254 scalar field: the type of a public input.
#[verifier::external_body]
pub struct Scalar {
    pub rep: ark_bn254::Fr,
}

/// A first-group point in affine coordinates.
#[verifier::external_body]
pub struct G1Point {
    pub rep: ark_bn254::G1Affine,
}

/// A second-group point in affine coordinates.
#[verifier::external_body]
pub struct G2Point {
    pub rep: ark_bn254::G2Affine,
}

/// A first-group element in projective coordinates, the representation
/// in which public inputs are accumulated.
#[verifier::external_body]
pub struct G1Element {
    pub rep: ark_bn254::G1Projective,
}

/// A second-group point precomputed for repeated pairing evaluation.
#[verifier::external_body]
pub struct PreparedG2 {
    pub rep: ark_ec::bn::G2Prepared<ark_bn254::Config>,
}

/// An element of the target field of the BN254 pairing.
#[verifier::external_body]
pub struct GtElement {
    pub rep: ark_bn254::Fq12,
}

/// The Miller loop of the pairing on the single pair (p, q); its final
/// exponentiation is the value of the bilinear pairing.
pub uninterp spec fn spec_miller_loop1(p: G1Point, q: G2Point) -> GtElement;

/// The negation of a second-group point, in pairing-ready form.
pub uninterp spec fn spec_neg_prepared(q: G2Point) -> PreparedG2;

/// Whether a pairing-ready second-group point carries the complete
/// line-coefficient table that preparing a point computes. The Miller
/// loop consumes one entry of the table per step, so it is defined only
/// on complete tables; every value built by [`negate_and_prepare_g2`]
/// has one.
pub uninterp spec fn spec_prepared_g2_complete(q: PreparedG2) -> bool;

/// The projective representation of an affine first-group point.
pub uninterp spec fn spec_to_projective(p: G1Point) -> G1Element;

/// The scalar multiple of a first-group point.
pub uninterp spec fn spec_mul(p: G1Point, s: Scalar) -> G1Element;

/// The sum of two first-group elements.
pub uninterp spec fn spec_add(a: G1Element, b: G1Element) -> G1Element;

/// The product of the three Miller loops of the verification equation,
/// over the pairs (a, b), (prepared_inputs, gamma_pc) and (c, delta_pc).
pub uninterp spec fn spec_miller_loop3(
    a: G1Point,
    b: G2Point,
    prepared_inputs: G1Element,
    gamma_pc: PreparedG2,
    c: G1Point,
    delta_pc: PreparedG2,
) -> GtElement;

/// The final exponentiation of a Miller-loop output: `None` exactly on
/// the degenerate values on which the exponentiation is ill-defined.
pub uninterp spec fn spec_final_exp(f: GtElement) -> Option<GtElement>;

/// Relies on `Pairing::multi_miller_loop` for BN254 on the single pair
/// (p, q), the second point carried to prepared form on the way in. The
/// preparation computes the complete line-coefficient table, and a pair
/// with an identity point is skipped, so the call returns on every
/// input.
#[verifier::external_body]
pub(crate) fn miller_loop1(p: &G1Point, q: &G2Point) -> (r: GtElement)
    ensures
        r == spec_miller_loop1(*p, *q),
{
    GtElement { rep: ark_bn254::Bn254::multi_miller_loop([p.rep], [q.rep]).0 }
}

/// Relies on `Neg` for second-group points, with `AffineRepr::into_group`,
/// `CurveGroup::into_affine` and `From<G2Affine>` for `G2Prepared` around
/// it: the negated point, precomputed for repeated pairing evaluation.
#[verifier::external_body]
pub(crate) fn negate_and_prepare_g2(q: &G2Point) -> (r: PreparedG2)
    ensures
        r == spec_neg_prepared(*q),
        spec_prepared_g2_complete(r),
{
    PreparedG2 { rep: q.rep.into_group().neg().into_affine().into() }
}

/// Relies on `AffineRepr::into_group`: the same group element, carried
/// into projective coordinates.
#[verifier::external_body]
pub(crate) fn g1_into_group(p: &G1Point) -> (r: G1Element)
    ensures
        r == spec_to_projective(*p),
{
    G1Element { rep: p.rep.into_group() }
}

/// Relies on `AffineRepr::mul_bigint`, with `PrimeField::into_bigint`
/// converting the scalar: the scalar multiple of the point.
#[verifier::external_body]
pub(crate) fn g1_mul_scalar(p: &G1Point, s: &Scalar) -> (r: G1Element)
    ensures
        r == spec_mul(*p, *s),
{
    G1Element { rep: p.rep.mul_bigint(s.rep.into_bigint()) }
}

/// Relies on `Add` for projective first-group points: the group sum.
#[verifier::external_body]
pub(crate) fn g1_add(a: &G1Element, b: &G1Element) -> (r: G1Element)
    ensures
        r == spec_add(*a, *b),
{
    G1Element { rep: a.rep + b.rep }
}

/// Relies on `Clone` for affine first-group points, a derived
/// field-by-field copy: the copy equals the original.
#[verifier::external_body]
pub(crate) fn g1_copy(p: &G1Point) -> (r: G1Point)
    ensures
        r == *p,
{
    G1Point { rep: p.rep.clone() }
}

/// Relies on `Clone` for affine second-group points, a derived
/// field-by-field copy: the copy equals the original.
#[verifier::external_body]
pub(crate) fn g2_copy(q: &G2Point) -> (r: G2Point)
    ensures
        r == *q,
{
    G2Point { rep: q.rep.clone() }
}

/// Relies on `Pairing::multi_miller_loop` for BN254 over the three pairs
/// of the verification equation, with the prepared-inputs element carried
/// to affine form and the points to prepared form on the way in. The two
/// already-prepared points must carry complete line-coefficient tables:
/// the loop consumes one entry per step and is not defined on a
/// truncated table.
#[verifier::external_body]
pub(crate) fn miller_loop3(
    a: &G1Point,
    b: &G2Point,
    prepared_inputs: &G1Element,
    gamma_pc: &PreparedG2,
    c: &G1Point,
    delta_pc: &PreparedG2,
) -> (r: GtElement)
    requires
        spec_prepared_g2_complete(*gamma_pc),
        spec_prepared_g2_complete(*delta_pc),
    ensures
        r == spec_miller_loop3(*a, *b, *prepared_inputs, *gamma_pc, *c, *delta_pc),
{
    let g1_terms: [ark_ec::bn::G1Prepared<ark_bn254::Config>; 3] = [
        a.rep.into(),
        prepared_inputs.rep.into_affine().into(),
        c.rep.into(),
    ];
    let g2_terms: [ark_ec::bn::G2Prepared<ark_bn254::Config>; 3] =
        [b.rep.into(), gamma_pc.rep.clone(), delta_pc.rep.clone()];
    GtElement { rep: ark_bn254::Bn254::multi_miller_loop(g1_terms, g2_terms).0 }
}

/// Relies on `Pairing::final_exponentiation` for BN254: the canonical
/// comparable form of a Miller-loop output, or `None` where the
/// exponentiation is ill-defined for that value.
#[verifier::external_body]
pub(crate) fn final_exponentiation(f: &GtElement) -> (r: Option<GtElement>)
    ensures
        r == spec_final_exp(*f),
{
    match ark_bn254::Bn254::final_exponentiation(ark_ec::pairing::MillerLoopOutput(f.rep)) {
        Some(t) => Some(GtElement { rep: t.0 }),
        None => None,
    }
}

/// Relies on `PartialEq` for the target field: its elements have a unique
/// representation, so representation equality is value equality.
#[verifier::external_body]
pub(crate) fn gt_eq(a: &GtElement, b: &GtElement) -> (r: bool)
    ensures
        r == (*a == *b),
{
    a.rep == b.rep
}

} // verus!
