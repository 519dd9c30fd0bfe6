//! What the dispatch layer needs to know of a curve.

use vstd::prelude::*;

use crate::status::MsmError;

verus! {

/// The curves that the library computes over. A device backend finds its
/// entry points for a curve by this.
#[derive(Debug, Clone, Copy, PartialEq, Eq, Structural)]
pub enum CurveId {
    Pallas,
    Vesta,
    Bn256,
    Grumpkin,
}

/// One curve as the dispatch layer sees it: the shapes of its elements,
/// its identity towards the backends, and the host backend's entry points.
///
/// Contracts compare values of `Point` as group elements: two values are
/// equal there when they denote the same element of the group, whatever
/// coordinates hold it.
pub trait CurveBinding: Sized {
    /// An element of the field that coordinates are taken from.
    type Base;

    /// A multiplier.
    type Scalar;

    /// A base point as callers hand it in, in affine coordinates.
    type Affine;

    /// A group element as a call returns it.
    type Point;

    spec fn curve_id() -> CurveId;

    /// The Montgomery flag that the curve's native entry points take, if
    /// they take one.
    spec fn montgomery_flag() -> Option<bool>;

    /// Whether `p` is a point of the curve.
    spec fn on_curve(p: Self::Affine) -> bool;

    /// The product of a point and a scalar.
    spec fn scale(p: Self::Affine, s: Self::Scalar) -> Self::Point;

    /// The sum of group elements; of none, the identity.
    spec fn sum(terms: Seq<Self::Point>) -> Self::Point;

    /// The group element that a Jacobian coordinate triple encodes, if it
    /// encodes one.
    spec fn decode(x: Self::Base, y: Self::Base, z: Self::Base) -> Option<Self::Point>;

    fn id() -> (r: CurveId)
        ensures
            r == Self::curve_id(),
    ;

    fn montgomery() -> (r: Option<bool>)
        ensures
            r == Self::montgomery_flag(),
    ;

    /// Checks that `p` satisfies the curve equation or is the point at
    /// infinity.
    fn is_on_curve(p: &Self::Affine) -> (r: bool)
        ensures
            r == Self::on_curve(*p),
    ;

    /// Multiplies a point by a scalar.
    fn scale_point(p: &Self::Affine, s: &Self::Scalar) -> (r: Self::Point)
        ensures
            r == Self::scale(*p, *s),
    ;

    /// Sums group elements.
    fn sum_points(terms: &[Self::Point]) -> (r: Self::Point)
        ensures
            r == Self::sum(terms@),
    ;

    /// The host backend: the multi-scalar multiplication of a batch.
    fn host_msm(points: &[Self::Affine], scalars: &[Self::Scalar]) -> (r: Self::Point)
        requires
            points@.len() == scalars@.len(),
            points@.len() <= HOST_BATCH_LIMIT,
        ensures
            (forall|i: int| 0 <= i < points@.len() ==> Self::on_curve(#[trigger] points@[i]))
                ==> r == Self::sum(
                Seq::new(scalars@.len(), |i: int| Self::scale(points@[i], scalars@[i])),
            ),
    ;

    /// Checks a coordinate triple and makes a point of it.
    fn from_jacobian(x: Self::Base, y: Self::Base, z: Self::Base) -> (r: Option<Self::Point>)
        ensures
            r == Self::decode(x, y, z),
    ;
}

/// The longest batch that the host backend takes in one call.
pub const HOST_BATCH_LIMIT: usize = 0xffff_ffff;

/// Whether every point of a batch is a point of the curve.
pub open spec fn all_on_curve<C: CurveBinding>(points: Seq<C::Affine>) -> bool {
    forall|i: int| 0 <= i < points.len() ==> C::on_curve(#[trigger] points[i])
}

/// Checks every point of a batch, stopping at the first that is not a
/// point of the curve.
pub fn batch_on_curve<C: CurveBinding>(points: &[C::Affine]) -> (ok: bool)
    ensures
        ok == all_on_curve::<C>(points@),
{
    let mut i: usize = 0;
    while i < points.len()
        invariant
            i <= points@.len(),
            forall|j: int| 0 <= j < i ==> C::on_curve(#[trigger] points@[j]),
        decreases points@.len() - i,
    {
        if !C::is_on_curve(&points[i]) {
            return false;
        }
        i += 1;
    }
    true
}

/// The products `scalars[i] * points[i]`, one for each scalar.
pub open spec fn products<C: CurveBinding>(
    points: Seq<C::Affine>,
    scalars: Seq<C::Scalar>,
) -> Seq<C::Point>
    recommends
        scalars.len() <= points.len(),
{
    Seq::new(scalars.len(), |i: int| C::scale(points[i], scalars[i]))
}

/// The multi-scalar multiplication of a batch: the sum over `i` of
/// `scalars[i] * points[i]`. Points beyond the last scalar take no part.
pub open spec fn msm_sum<C: CurveBinding>(
    points: Seq<C::Affine>,
    scalars: Seq<C::Scalar>,
) -> C::Point
    recommends
        scalars.len() <= points.len(),
{
    C::sum(products::<C>(points, scalars))
}

/// The reference computation of a multi-scalar multiplication: each
/// product `scalars[i] * points[i]` by itself, then the sum of the
/// products. Slices of different lengths fail with `LengthMismatch`.
pub fn reference_sum<C: CurveBinding>(points: &[C::Affine], scalars: &[C::Scalar]) -> (r: Result<
    C::Point,
    MsmError,
>)
    ensures
        points@.len() != scalars@.len() ==> r == Err::<C::Point, MsmError>(
            MsmError::LengthMismatch,
        ),
        points@.len() == scalars@.len() ==> r == Ok::<C::Point, MsmError>(
            msm_sum::<C>(points@, scalars@),
        ),
{
    if points.len() != scalars.len() {
        return Err(MsmError::LengthMismatch);
    }
    let mut terms: Vec<C::Point> = Vec::new();
    let mut i: usize = 0;
    while i < scalars.len()
        invariant
            i <= scalars@.len(),
            points@.len() == scalars@.len(),
            terms@ == products::<C>(points@, scalars@.take(i as int)),
        decreases scalars@.len() - i,
    {
        let term = C::scale_point(&points[i], &scalars[i]);
        terms.push(term);
        i += 1;
        proof {
            assert(terms@ =~= products::<C>(points@, scalars@.take(i as int)));
        }
    }
    proof {
        assert(scalars@.take(i as int) =~= scalars@);
    }
    Ok(C::sum_points(terms.as_slice()))
}

} // verus!
