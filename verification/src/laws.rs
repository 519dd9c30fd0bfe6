//! What holds across the entry points.

use pasta_curves::{EpAffine, Fq};
use vstd::prelude::*;

use crate::context::MSMContext;
use crate::curve::{all_on_curve, msm_sum, products, CurveBinding, HOST_BATCH_LIMIT};
use crate::dispatch::{
    init_result, lemma_run_sums_of_prefix, multiply_post, with_post, Outcome,
};
use crate::pasta::utils::pallas_affine;
use crate::pasta::Pallas;
use crate::selector::{Backend, BackendSelector};
use crate::status::MsmError;

verus! {

/// A one-shot call over points of the curve that the host computes in one
/// call of its backend returns the sum of the products
/// `scalars[i] * points[i]`.
pub proof fn law_one_shot_is_the_sum<C: CurveBinding>(
    selector: BackendSelector,
    points: Seq<C::Affine>,
    scalars: Seq<C::Scalar>,
    r: Result<Outcome<C::Point>, MsmError>,
)
    requires
        points.len() == scalars.len(),
        points.len() <= HOST_BATCH_LIMIT,
        all_on_curve::<C>(points),
        selector.choice(points.len()) == Backend::Cpu,
        multiply_post::<C>(selector, points, scalars, r),
    ensures
        r == Ok::<Outcome<C::Point>, MsmError>(Outcome::Done(msm_sum::<C>(points, scalars))),
{
    assert(points.take(scalars.len() as int) =~= points);
}

/// On Pallas, a one-shot call that the host computes and the reference
/// sum agree once both are in affine coordinates.
pub proof fn law_pallas_matches_reference(
    selector: BackendSelector,
    points: Seq<EpAffine>,
    scalars: Seq<Fq>,
    r: Result<Outcome<pasta_curves::Ep>, MsmError>,
    reference: EpAffine,
)
    requires
        points.len() == scalars.len(),
        points.len() <= HOST_BATCH_LIMIT,
        all_on_curve::<Pallas>(points),
        selector.choice(points.len()) == Backend::Cpu,
        multiply_post::<Pallas>(selector, points, scalars, r),
        reference == pallas_affine(msm_sum::<Pallas>(points, scalars)),
    ensures
        r matches Ok(Outcome::Done(p)) && pallas_affine(p) == reference,
{
    law_one_shot_is_the_sum::<Pallas>(selector, points, scalars, r);
}

/// A call on a host context over `points` returns what a one-shot call
/// over as many of the first points as there are scalars returns.
pub proof fn law_context_matches_one_shot<C: CurveBinding>(
    selector: BackendSelector,
    points: &[C::Affine],
    scalars: Seq<C::Scalar>,
    via_context: Result<Outcome<C::Point>, MsmError>,
    one_shot: Result<Outcome<C::Point>, MsmError>,
)
    requires
        scalars.len() <= points@.len(),
        all_on_curve::<C>(points@.take(scalars.len() as int)),
        init_result::<C>(selector, points) matches Outcome::Done(context) && with_post::<C>(
            context,
            scalars,
            via_context,
        ),
        multiply_post::<C>(selector, points@.take(scalars.len() as int), scalars, one_shot),
    ensures
        via_context == one_shot,
{
    let prefix = points@.take(scalars.len() as int);
    assert(prefix.take(scalars.len() as int) =~= prefix);
    assert(products::<C>(prefix, scalars) =~= products::<C>(points@, scalars));
    lemma_run_sums_of_prefix::<C>(points@, scalars, HOST_BATCH_LIMIT as nat);
}

/// Two calls on the same context with the same scalars return the same.
pub proof fn law_context_call_repeats<C: CurveBinding>(
    context: MSMContext<C::Affine>,
    scalars: Seq<C::Scalar>,
    first: Result<Outcome<C::Point>, MsmError>,
    second: Result<Outcome<C::Point>, MsmError>,
)
    requires
        context matches MSMContext::CPU(points) ==> all_on_curve::<C>(
            points@.take(scalars.len() as int),
        ),
        with_post::<C>(context, scalars, first),
        with_post::<C>(context, scalars, second),
    ensures
        first == second,
{
}

/// The backend of a call on a context is the context's own: a device
/// context never computes on the host, a host context never asks for the
/// device.
pub proof fn law_backend_is_pinned<C: CurveBinding>(
    context: MSMContext<C::Affine>,
    scalars: Seq<C::Scalar>,
    r: Result<Outcome<C::Point>, MsmError>,
)
    requires
        with_post::<C>(context, scalars, r),
        r is Ok,
    ensures
        context is CUDA <==> r matches Ok(Outcome::OnDevice(_)),
        context is CPU <==> r matches Ok(Outcome::Done(_)),
{
}

/// A released context has nothing left to free, and a second release
/// leaves it as the first did.
pub proof fn law_release_is_idempotent<A>(context: MSMContext<A>)
    ensures
        context.released().pending_release() is None,
        context.released().released() == context.released(),
        !(context is CUDA) ==> context.released() == context,
{
}

/// A release hands out a handle only for a device context that still owns
/// memory, and then it is that context's handle.
pub proof fn law_release_frees_once<A>(context: MSMContext<A>)
    ensures
        context.pending_release() is Some <==> (context matches MSMContext::CUDA(c)
            && c.is_live()),
        context matches MSMContext::CUDA(c) ==> (c.is_live() ==> context.pending_release()
            == Some(c.context)),
{
}

} // verus!
