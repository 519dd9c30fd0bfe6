//! The BN256 curve.

use halo2curves::{CurveAffine, CurveExt};
use halo2curves::bn256::{Fq, Fr, G1Affine, G1};
use vstd::prelude::*;

use crate::context::MSMContext;
use crate::curve::{CurveBinding, CurveId, HOST_BATCH_LIMIT};
use crate::dispatch::{
    init_context, init_result, multiply, multiply_post, multiply_with_context, with_post, Outcome,
};
use crate::selector::BackendSelector;
use crate::status::MsmError;

verus! {

/// A BN256 group element of the first source group, in projective
/// coordinates.
#[verifier::external_type_specification]
#[verifier::external_body]
pub struct Bn256PointDecl(halo2curves::bn256::G1);

/// A BN256 point in affine coordinates, or the point at infinity.
#[verifier::external_type_specification]
#[verifier::external_body]
pub struct Bn256AffineDecl(halo2curves::bn256::G1Affine);

/// An element of the BN256 base field, which is the Grumpkin scalar field.
#[verifier::external_type_specification]
#[verifier::external_body]
pub struct Bn256FqDecl(halo2curves::bn256::Fq);

/// An element of the BN256 scalar field, which is the Grumpkin base field.
#[verifier::external_type_specification]
#[verifier::external_body]
pub struct Bn256FrDecl(halo2curves::bn256::Fr);

/// What `G1Affine::is_on_curve` answers.
pub uninterp spec fn bn256_on_curve(p: G1Affine) -> bool;

/// Calls `G1Affine::is_on_curve` and turns its constant-time answer into a
/// plain one.
#[verifier::external_body]
fn bn256_is_on_curve(p: &G1Affine) -> (r: bool)
    ensures
        r == bn256_on_curve(*p),
{
    bool::from(p.is_on_curve())
}

/// The group element that the product of a `G1Affine` and an `Fr` is.
pub uninterp spec fn bn256_scale(p: G1Affine, s: Fr) -> G1;

/// Multiplies a `G1Affine` by an `Fr` with the curve's own `*`.
#[verifier::external_body]
fn bn256_mul(p: &G1Affine, s: &Fr) -> (r: G1)
    ensures
        r == bn256_scale(*p, *s),
{
    p * s
}

/// The group element that `G1`'s `Sum` makes of a sequence.
pub uninterp spec fn bn256_sum(terms: Seq<G1>) -> G1;

/// Sums a slice with `G1`'s own `Sum`, which adds each element in turn
/// to the identity.
#[verifier::external_body]
fn bn256_sum_points(terms: &[G1]) -> (r: G1)
    ensures
        r == bn256_sum(terms@),
{
    terms.iter().sum()
}

/// What `G1::new_jacobian` returns.
pub uninterp spec fn bn256_from_jacobian(x: Fq, y: Fq, z: Fq) -> Option<G1>;

/// Calls `halo2curves::msm::best_multiexp` on BN256 points.
///
/// Taken on trust from its documentation, which calls it a
/// multi-exponentiation: for points of the curve the result is the group
/// element that summing the products `scalars[i] * points[i]` gives. The
/// function panics on slices of different lengths, and its window size is
/// computed from the length as a 32-bit number.
#[verifier::external_body]
fn bn256_best_multiexp(points: &[G1Affine], scalars: &[Fr]) -> (r: G1)
    requires
        points@.len() == scalars@.len(),
        points@.len() <= HOST_BATCH_LIMIT,
    ensures
        (forall|i: int| 0 <= i < points@.len() ==> bn256_on_curve(#[trigger] points@[i])) ==> r
            == bn256_sum(
            Seq::new(scalars@.len(), |i: int| bn256_scale(points@[i], scalars@[i])),
        ),
{
    halo2curves::msm::best_multiexp(scalars, points)
}

/// Calls `G1::new_jacobian`, which checks the curve equation, and turns
/// its constant-time option into a plain one.
#[verifier::external_body]
fn bn256_new_jacobian(x: Fq, y: Fq, z: Fq) -> (r: Option<G1>)
    ensures
        r == bn256_from_jacobian(x, y, z),
{
    Option::from(G1::new_jacobian(x, y, z))
}

/// The BN256 curve.
pub struct Bn256;

impl CurveBinding for Bn256 {
    type Base = Fq;

    type Scalar = Fr;

    type Affine = G1Affine;

    type Point = G1;

    open spec fn curve_id() -> CurveId {
        CurveId::Bn256
    }

    open spec fn montgomery_flag() -> Option<bool> {
        None
    }

    open spec fn on_curve(p: G1Affine) -> bool {
        bn256_on_curve(p)
    }

    open spec fn scale(p: G1Affine, s: Fr) -> G1 {
        bn256_scale(p, s)
    }

    open spec fn sum(terms: Seq<G1>) -> G1 {
        bn256_sum(terms)
    }

    open spec fn decode(x: Fq, y: Fq, z: Fq) -> Option<G1> {
        bn256_from_jacobian(x, y, z)
    }

    fn id() -> (r: CurveId) {
        CurveId::Bn256
    }

    fn montgomery() -> (r: Option<bool>) {
        None
    }

    fn is_on_curve(p: &G1Affine) -> (r: bool) {
        bn256_is_on_curve(p)
    }

    fn scale_point(p: &G1Affine, s: &Fr) -> (r: G1) {
        bn256_mul(p, s)
    }

    fn sum_points(terms: &[G1]) -> (r: G1) {
        bn256_sum_points(terms)
    }

    fn host_msm(points: &[G1Affine], scalars: &[Fr]) -> (r: G1) {
        proof {
            assert(Seq::new(scalars@.len(), |i: int| Self::scale(points@[i], scalars@[i]))
                =~= Seq::new(scalars@.len(), |i: int| bn256_scale(points@[i], scalars@[i])));
        }
        bn256_best_multiexp(points, scalars)
    }

    fn from_jacobian(x: Fq, y: Fq, z: Fq) -> (r: Option<G1>) {
        bn256_new_jacobian(x, y, z)
    }
}

/// The multi-scalar multiplication of `points` by `scalars`, in one shot:
/// see `multiply`.
pub fn msm(selector: &BackendSelector, points: &[G1Affine], scalars: &[Fr]) -> (r: Result<
    Outcome<G1>,
    MsmError,
>)
    ensures
        multiply_post::<Bn256>(*selector, points@, scalars@, r),
        points@.len() != scalars@.len() <==> r == Err::<Outcome<G1>, MsmError>(
            MsmError::LengthMismatch,
        ),
{
    multiply::<Bn256>(selector, points, scalars)
}

/// Binds `points` to a backend for the calls that follow: see
/// `init_context`.
pub fn init<'a>(selector: &BackendSelector, points: &'a [G1Affine]) -> (r: Outcome<
    MSMContext<'a, G1Affine>,
>)
    ensures
        r == init_result::<Bn256>(*selector, points),
{
    init_context::<Bn256>(selector, points)
}

/// The multi-scalar multiplication of the context's first points by
/// `scalars`, on the context's backend: see `multiply_with_context`.
pub fn with(context: &MSMContext<'_, G1Affine>, scalars: &[Fr]) -> (r: Result<
    Outcome<G1>,
    MsmError,
>)
    ensures
        with_post::<Bn256>(*context, scalars@, r),
        context.point_count() matches Some(n) && scalars@.len() > n ==> r == Err::<
            Outcome<G1>,
            MsmError,
        >(MsmError::InsufficientPoints),
{
    multiply_with_context::<Bn256>(context, scalars)
}

} // verus!
