//! The Pallas and Vesta curves.

pub mod utils;

use pasta_curves::arithmetic::{CurveAffine, CurveExt};
use pasta_curves::{Ep, EpAffine, Fp, Fq};
use vstd::prelude::*;

use crate::curve::{CurveBinding, CurveId, HOST_BATCH_LIMIT};
use crate::dispatch::{multiply, multiply_post, Outcome};
use crate::selector::BackendSelector;
use crate::status::MsmError;

verus! {

/// A Pallas group element, in projective coordinates.
#[verifier::external_type_specification]
#[verifier::external_body]
pub struct PallasPointDecl(pasta_curves::Ep);

/// A Pallas point in affine coordinates, or the point at infinity.
#[verifier::external_type_specification]
#[verifier::external_body]
pub struct PallasAffineDecl(pasta_curves::EpAffine);

/// An element of the Pallas base field, which is the Vesta scalar field.
#[verifier::external_type_specification]
#[verifier::external_body]
pub struct PastaFpDecl(pasta_curves::Fp);

/// An element of the Pallas scalar field, which is the Vesta base field.
#[verifier::external_type_specification]
#[verifier::external_body]
pub struct PastaFqDecl(pasta_curves::Fq);

/// What `EpAffine::is_on_curve` answers.
pub uninterp spec fn pallas_on_curve(p: EpAffine) -> bool;

/// Calls `EpAffine::is_on_curve` and turns its constant-time answer into a
/// plain one.
#[verifier::external_body]
fn pallas_is_on_curve(p: &EpAffine) -> (r: bool)
    ensures
        r == pallas_on_curve(*p),
{
    bool::from(p.is_on_curve())
}

/// The group element that the product of an `EpAffine` and an `Fq` is.
pub uninterp spec fn pallas_scale(p: EpAffine, s: Fq) -> Ep;

/// Multiplies an `EpAffine` by an `Fq` with the curve's own `*`.
#[verifier::external_body]
fn pallas_mul(p: &EpAffine, s: &Fq) -> (r: Ep)
    ensures
        r == pallas_scale(*p, *s),
{
    p * s
}

/// The group element that `Ep`'s `Sum` makes of a sequence.
pub uninterp spec fn pallas_sum(terms: Seq<Ep>) -> Ep;

/// Sums a slice with `Ep`'s own `Sum`, which adds each element in turn
/// to the identity.
#[verifier::external_body]
fn pallas_sum_points(terms: &[Ep]) -> (r: Ep)
    ensures
        r == pallas_sum(terms@),
{
    terms.iter().sum()
}

/// What `Ep::new_jacobian` returns.
pub uninterp spec fn pallas_from_jacobian(x: Fp, y: Fp, z: Fp) -> Option<Ep>;

/// Calls `halo2curves::msm::best_multiexp` on Pallas points.
///
/// Taken on trust from its documentation, which calls it a
/// multi-exponentiation: for points of the curve the result is the group
/// element that summing the products `scalars[i] * points[i]` gives. The
/// function panics on slices of different lengths, and its window size is
/// computed from the length as a 32-bit number.
#[verifier::external_body]
fn pallas_best_multiexp(points: &[EpAffine], scalars: &[Fq]) -> (r: Ep)
    requires
        points@.len() == scalars@.len(),
        points@.len() <= HOST_BATCH_LIMIT,
    ensures
        (forall|i: int| 0 <= i < points@.len() ==> pallas_on_curve(#[trigger] points@[i])) ==> r
            == pallas_sum(
            Seq::new(scalars@.len(), |i: int| pallas_scale(points@[i], scalars@[i])),
        ),
{
    halo2curves::msm::best_multiexp(scalars, points)
}

/// Calls `Ep::new_jacobian`, which checks the curve equation, and turns its
/// constant-time option into a plain one.
#[verifier::external_body]
fn pallas_new_jacobian(x: Fp, y: Fp, z: Fp) -> (r: Option<Ep>)
    ensures
        r == pallas_from_jacobian(x, y, z),
{
    Option::from(Ep::new_jacobian(x, y, z))
}

/// The Pallas curve.
pub struct Pallas;

impl CurveBinding for Pallas {
    type Base = Fp;

    type Scalar = Fq;

    type Affine = EpAffine;

    type Point = Ep;

    open spec fn curve_id() -> CurveId {
        CurveId::Pallas
    }

    open spec fn montgomery_flag() -> Option<bool> {
        Some(true)
    }

    open spec fn on_curve(p: EpAffine) -> bool {
        pallas_on_curve(p)
    }

    open spec fn scale(p: EpAffine, s: Fq) -> Ep {
        pallas_scale(p, s)
    }

    open spec fn sum(terms: Seq<Ep>) -> Ep {
        pallas_sum(terms)
    }

    open spec fn decode(x: Fp, y: Fp, z: Fp) -> Option<Ep> {
        pallas_from_jacobian(x, y, z)
    }

    fn id() -> (r: CurveId) {
        CurveId::Pallas
    }

    fn montgomery() -> (r: Option<bool>) {
        Some(true)
    }

    fn is_on_curve(p: &EpAffine) -> (r: bool) {
        pallas_is_on_curve(p)
    }

    fn scale_point(p: &EpAffine, s: &Fq) -> (r: Ep) {
        pallas_mul(p, s)
    }

    fn sum_points(terms: &[Ep]) -> (r: Ep) {
        pallas_sum_points(terms)
    }

    fn host_msm(points: &[EpAffine], scalars: &[Fq]) -> (r: Ep) {
        proof {
            assert(Seq::new(scalars@.len(), |i: int| Self::scale(points@[i], scalars@[i]))
                =~= Seq::new(scalars@.len(), |i: int| pallas_scale(points@[i], scalars@[i])));
        }
        pallas_best_multiexp(points, scalars)
    }

    fn from_jacobian(x: Fp, y: Fp, z: Fp) -> (r: Option<Ep>) {
        pallas_new_jacobian(x, y, z)
    }
}

/// The multi-scalar multiplication of Pallas points, in one shot: see
/// `multiply`.
pub fn pallas(selector: &BackendSelector, points: &[EpAffine], scalars: &[Fq]) -> (r: Result<
    Outcome<Ep>,
    MsmError,
>)
    ensures
        multiply_post::<Pallas>(*selector, points@, scalars@, r),
        points@.len() != scalars@.len() <==> r == Err::<Outcome<Ep>, MsmError>(
            MsmError::LengthMismatch,
        ),
{
    multiply::<Pallas>(selector, points, scalars)
}

/// A Vesta group element, in projective coordinates.
#[verifier::external_type_specification]
#[verifier::external_body]
pub struct VestaPointDecl(pasta_curves::Eq);

/// A Vesta point in affine coordinates, or the point at infinity.
#[verifier::external_type_specification]
#[verifier::external_body]
pub struct VestaAffineDecl(pasta_curves::EqAffine);

/// What `EqAffine::is_on_curve` answers.
pub uninterp spec fn vesta_on_curve(p: pasta_curves::EqAffine) -> bool;

/// Calls `EqAffine::is_on_curve` and turns its constant-time answer into a
/// plain one.
#[verifier::external_body]
fn vesta_is_on_curve(p: &pasta_curves::EqAffine) -> (r: bool)
    ensures
        r == vesta_on_curve(*p),
{
    bool::from(p.is_on_curve())
}

/// The group element that the product of an `EqAffine` and an `Fp` is.
pub uninterp spec fn vesta_scale(p: pasta_curves::EqAffine, s: Fp) -> pasta_curves::Eq;

/// Multiplies an `EqAffine` by an `Fp` with the curve's own `*`.
#[verifier::external_body]
fn vesta_mul(p: &pasta_curves::EqAffine, s: &Fp) -> (r: pasta_curves::Eq)
    ensures
        r == vesta_scale(*p, *s),
{
    p * s
}

/// The group element that `Eq`'s `Sum` makes of a sequence.
pub uninterp spec fn vesta_sum(terms: Seq<pasta_curves::Eq>) -> pasta_curves::Eq;

/// Sums a slice with `Eq`'s own `Sum`, which adds each element in turn
/// to the identity.
#[verifier::external_body]
fn vesta_sum_points(terms: &[pasta_curves::Eq]) -> (r: pasta_curves::Eq)
    ensures
        r == vesta_sum(terms@),
{
    terms.iter().sum()
}

/// What `Eq::new_jacobian` returns.
pub uninterp spec fn vesta_from_jacobian(x: Fq, y: Fq, z: Fq) -> Option<pasta_curves::Eq>;

/// Calls `halo2curves::msm::best_multiexp` on Vesta points.
///
/// Taken on trust from its documentation, which calls it a
/// multi-exponentiation: for points of the curve the result is the group
/// element that summing the products `scalars[i] * points[i]` gives. The
/// function panics on slices of different lengths, and its window size is
/// computed from the length as a 32-bit number.
#[verifier::external_body]
fn vesta_best_multiexp(points: &[pasta_curves::EqAffine], scalars: &[Fp]) -> (r: pasta_curves::Eq)
    requires
        points@.len() == scalars@.len(),
        points@.len() <= HOST_BATCH_LIMIT,
    ensures
        (forall|i: int| 0 <= i < points@.len() ==> vesta_on_curve(#[trigger] points@[i])) ==> r
            == vesta_sum(
            Seq::new(scalars@.len(), |i: int| vesta_scale(points@[i], scalars@[i])),
        ),
{
    halo2curves::msm::best_multiexp(scalars, points)
}

/// Calls `Eq::new_jacobian`, which checks the curve equation, and turns
/// its constant-time option into a plain one.
#[verifier::external_body]
fn vesta_new_jacobian(x: Fq, y: Fq, z: Fq) -> (r: Option<pasta_curves::Eq>)
    ensures
        r == vesta_from_jacobian(x, y, z),
{
    Option::from(pasta_curves::Eq::new_jacobian(x, y, z))
}

/// The Vesta curve.
pub struct Vesta;

impl CurveBinding for Vesta {
    type Base = Fq;

    type Scalar = Fp;

    type Affine = pasta_curves::EqAffine;

    type Point = pasta_curves::Eq;

    open spec fn curve_id() -> CurveId {
        CurveId::Vesta
    }

    open spec fn montgomery_flag() -> Option<bool> {
        Some(true)
    }

    open spec fn on_curve(p: pasta_curves::EqAffine) -> bool {
        vesta_on_curve(p)
    }

    open spec fn scale(p: pasta_curves::EqAffine, s: Fp) -> pasta_curves::Eq {
        vesta_scale(p, s)
    }

    open spec fn sum(terms: Seq<pasta_curves::Eq>) -> pasta_curves::Eq {
        vesta_sum(terms)
    }

    open spec fn decode(x: Fq, y: Fq, z: Fq) -> Option<pasta_curves::Eq> {
        vesta_from_jacobian(x, y, z)
    }

    fn id() -> (r: CurveId) {
        CurveId::Vesta
    }

    fn montgomery() -> (r: Option<bool>) {
        Some(true)
    }

    fn is_on_curve(p: &pasta_curves::EqAffine) -> (r: bool) {
        vesta_is_on_curve(p)
    }

    fn scale_point(p: &pasta_curves::EqAffine, s: &Fp) -> (r: pasta_curves::Eq) {
        vesta_mul(p, s)
    }

    fn sum_points(terms: &[pasta_curves::Eq]) -> (r: pasta_curves::Eq) {
        vesta_sum_points(terms)
    }

    fn host_msm(points: &[pasta_curves::EqAffine], scalars: &[Fp]) -> (r: pasta_curves::Eq) {
        proof {
            assert(Seq::new(scalars@.len(), |i: int| Self::scale(points@[i], scalars@[i]))
                =~= Seq::new(scalars@.len(), |i: int| vesta_scale(points@[i], scalars@[i])));
        }
        vesta_best_multiexp(points, scalars)
    }

    fn from_jacobian(x: Fq, y: Fq, z: Fq) -> (r: Option<pasta_curves::Eq>) {
        vesta_new_jacobian(x, y, z)
    }
}

/// The multi-scalar multiplication of Vesta points, in one shot: see
/// `multiply`.
pub fn vesta(
    selector: &BackendSelector,
    points: &[pasta_curves::EqAffine],
    scalars: &[Fp],
) -> (r: Result<Outcome<pasta_curves::Eq>, MsmError>)
    ensures
        multiply_post::<Vesta>(*selector, points@, scalars@, r),
        points@.len() != scalars@.len() <==> r == Err::<Outcome<pasta_curves::Eq>, MsmError>(
            MsmError::LengthMismatch,
        ),
{
    multiply::<Vesta>(selector, points, scalars)
}

} // verus!
