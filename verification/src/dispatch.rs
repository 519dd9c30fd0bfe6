//! The entry points: validate, fix the backend, compute or hand over, and
//! turn what a backend returned into a result.
//!
//! A call that resolves to the host is computed here. One that resolves to
//! the device comes back as a `DeviceRequest`: the embedding program runs
//! it and passes the device's answer to `finish_compute`, or, for a
//! context, to `MSMContext::from_device_precompute`.

use vstd::prelude::*;
use vstd::slice::slice_subrange;

use crate::context::MSMContext;
use crate::curve::{all_on_curve, msm_sum, products, CurveBinding, CurveId, HOST_BATCH_LIMIT};
use crate::selector::{Backend, BackendSelector};
use crate::status::{check_compute, compute_failure, MsmError, StatusCode};

verus! {

/// Work for the device backend.
#[derive(Debug, Clone, Copy, PartialEq, Eq)]
pub enum DeviceRequest {
    /// Multiply the caller's `npoints` points by as many scalars.
    Compute { curve: CurveId, npoints: usize, montgomery: Option<bool> },
    /// Precompute the caller's `npoints` points into device memory.
    Precompute { curve: CurveId, npoints: usize },
    /// Multiply the first `nscalars` of the points behind the handle
    /// `context` by the caller's scalars.
    ComputeWith { curve: CurveId, context: usize, nscalars: usize, montgomery: Option<bool> },
}

/// How a call resolved.
#[derive(Debug)]
pub enum Outcome<T> {
    /// The host computed the result.
    Done(T),
    /// The call belongs to the device: the request says what to run.
    OnDevice(DeviceRequest),
}

impl<T> Outcome<T> {
    /// The result, if the host computed it.
    pub fn done(self) -> (r: Option<T>)
        ensures
            r == match self {
                Outcome::Done(t) => Some(t),
                Outcome::OnDevice(_) => None,
            },
    {
        match self {
            Outcome::Done(t) => Some(t),
            Outcome::OnDevice(_) => None,
        }
    }

    /// The request, if the call belongs to the device.
    pub fn request(&self) -> (r: Option<DeviceRequest>)
        ensures
            r == match *self {
                Outcome::Done(_) => None,
                Outcome::OnDevice(request) => Some(request),
            },
    {
        match self {
            Outcome::Done(_) => None,
            Outcome::OnDevice(request) => Some(*request),
        }
    }
}

/// A batch cut into runs of at most `run` pairs, and the sum of each run.
pub open spec fn run_sums<C: CurveBinding>(
    points: Seq<C::Affine>,
    scalars: Seq<C::Scalar>,
    run: nat,
) -> Seq<C::Point>
    recommends
        scalars.len() <= points.len(),
        run > 0,
    decreases scalars.len(),
{
    if run == 0 || scalars.len() == 0 {
        Seq::empty()
    } else if scalars.len() <= run {
        seq![msm_sum::<C>(points, scalars)]
    } else {
        seq![msm_sum::<C>(points.take(run as int), scalars.take(run as int))] + run_sums::<C>(
            points.skip(run as int),
            scalars.skip(run as int),
            run,
        )
    }
}

/// What the host computes for a batch whose points are on the curve. A
/// batch that the host backend takes in one call gives the sum of the
/// products `scalars[i] * points[i]`; a longer one is cut into runs, and
/// gives the sum of the runs' sums.
pub open spec fn host_value<C: CurveBinding>(
    points: Seq<C::Affine>,
    scalars: Seq<C::Scalar>,
    run: nat,
) -> C::Point
    recommends
        scalars.len() <= points.len(),
        run > 0,
{
    if scalars.len() <= run {
        msm_sum::<C>(points, scalars)
    } else {
        C::sum(run_sums::<C>(points, scalars, run))
    }
}

/// Points beyond the last scalar take no part in the runs.
pub proof fn lemma_run_sums_of_prefix<C: CurveBinding>(
    points: Seq<C::Affine>,
    scalars: Seq<C::Scalar>,
    run: nat,
)
    requires
        scalars.len() <= points.len(),
    ensures
        run_sums::<C>(points.take(scalars.len() as int), scalars, run) == run_sums::<C>(
            points,
            scalars,
            run,
        ),
    decreases scalars.len(),
{
    let n = scalars.len() as int;
    let prefix = points.take(n);
    if run == 0 || n == 0 {
    } else if n <= run {
        assert(products::<C>(prefix, scalars) =~= products::<C>(points, scalars));
    } else {
        assert(prefix.take(run as int) =~= points.take(run as int));
        let rest = scalars.skip(run as int);
        assert(prefix.skip(run as int) =~= points.skip(run as int).take(rest.len() as int));
        lemma_run_sums_of_prefix::<C>(points.skip(run as int), rest, run);
    }
}

/// The host's computation of a batch, in runs of at most `run` pairs.
/// Points beyond the last scalar take no part. There is no result where
/// the scalars outnumber the points, or where `run` is zero or more than
/// the host backend takes in one call.
pub fn host_compute<C: CurveBinding>(points: &[C::Affine], scalars: &[C::Scalar], run: usize) -> (r:
    Option<C::Point>)
    ensures
        r is Some <==> scalars@.len() <= points@.len() && 0 < run <= HOST_BATCH_LIMIT,
        r matches Some(p) ==> (all_on_curve::<C>(points@.take(scalars@.len() as int)) ==> p
            == host_value::<C>(points@, scalars@, run as nat)),
{
    if scalars.len() > points.len() || run == 0 || run > HOST_BATCH_LIMIT {
        None
    } else {
        Some(host_runs::<C>(points, scalars, run))
    }
}

fn host_runs<C: CurveBinding>(points: &[C::Affine], scalars: &[C::Scalar], run: usize) -> (p:
    C::Point)
    requires
        scalars@.len() <= points@.len(),
        0 < run <= HOST_BATCH_LIMIT,
    ensures
        all_on_curve::<C>(points@.take(scalars@.len() as int)) ==> p == host_value::<C>(
            points@,
            scalars@,
            run as nat,
        ),
{
    let n = scalars.len();
    if n <= run {
        let used = slice_subrange(points, 0, n);
        let p = C::host_msm(used, scalars);
        proof {
            assert(used@ =~= points@.take(n as int));
            assert(Seq::new(scalars@.len(), |i: int| C::scale(used@[i], scalars@[i]))
                =~= products::<C>(points@, scalars@));
        }
        return p;
    }
    let ghost valid = all_on_curve::<C>(points@.take(n as int));
    let mut sums: Vec<C::Point> = Vec::new();
    let mut start: usize = 0;
    proof {
        assert(points@.skip(0) =~= points@);
        assert(scalars@.skip(0) =~= scalars@);
        assert(sums@ + run_sums::<C>(points@, scalars@, run as nat) =~= run_sums::<C>(
            points@,
            scalars@,
            run as nat,
        ));
    }
    while start < n
        invariant
            start <= n,
            n == scalars@.len(),
            n <= points@.len(),
            0 < run <= HOST_BATCH_LIMIT,
            valid == all_on_curve::<C>(points@.take(n as int)),
            valid ==> sums@ + run_sums::<C>(
                points@.skip(start as int),
                scalars@.skip(start as int),
                run as nat,
            ) == run_sums::<C>(points@, scalars@, run as nat),
        decreases n - start,
    {
        let len = if n - start < run {
            n - start
        } else {
            run
        };
        let end = start + len;
        let run_points = slice_subrange(points, start, end);
        let run_scalars = slice_subrange(scalars, start, end);
        let partial = C::host_msm(run_points, run_scalars);
        proof {
            let rest_points = points@.skip(start as int);
            let rest_scalars = scalars@.skip(start as int);
            if valid {
                assert forall|i: int| 0 <= i < run_points@.len() implies C::on_curve(
                    #[trigger] run_points@[i],
                ) by {
                    assert(run_points@[i] == points@.take(n as int)[start + i]);
                }
                if rest_scalars.len() <= run {
                    assert(run_scalars@ =~= rest_scalars);
                    assert(Seq::new(
                        run_scalars@.len(),
                        |i: int| C::scale(run_points@[i], run_scalars@[i]),
                    ) =~= products::<C>(rest_points, rest_scalars));
                    assert(run_sums::<C>(
                        points@.skip(end as int),
                        scalars@.skip(end as int),
                        run as nat,
                    ) =~= Seq::<C::Point>::empty());
                } else {
                    assert(run_scalars@ =~= rest_scalars.take(run as int));
                    assert(run_points@ =~= rest_points.take(run as int));
                    assert(Seq::new(
                        run_scalars@.len(),
                        |i: int| C::scale(run_points@[i], run_scalars@[i]),
                    ) =~= products::<C>(rest_points.take(run as int), rest_scalars.take(run as int)));
                    assert(rest_points.skip(run as int) =~= points@.skip(end as int));
                    assert(rest_scalars.skip(run as int) =~= scalars@.skip(end as int));
                }
                assert(sums@.push(partial) + run_sums::<C>(
                    points@.skip(end as int),
                    scalars@.skip(end as int),
                    run as nat,
                ) =~= sums@ + run_sums::<C>(rest_points, rest_scalars, run as nat));
            }
        }
        sums.push(partial);
        start = end;
    }
    proof {
        if valid {
            assert(sums@ + Seq::<C::Point>::empty() =~= sums@);
        }
    }
    C::sum_points(sums.as_slice())
}

/// What the host owes for a batch: a result, and for points of the curve
/// the value that `host_value` names.
pub open spec fn host_post<C: CurveBinding>(
    points: Seq<C::Affine>,
    scalars: Seq<C::Scalar>,
    r: Result<Outcome<C::Point>, MsmError>,
) -> bool
    recommends
        scalars.len() <= points.len(),
{
    &&& r matches Ok(Outcome::Done(p))
    &&& all_on_curve::<C>(points.take(scalars.len() as int)) ==> p == host_value::<C>(
        points,
        scalars,
        HOST_BATCH_LIMIT as nat,
    )
}

/// The request of a one-shot call that resolved to the device.
pub open spec fn compute_request<C: CurveBinding>(npoints: usize) -> DeviceRequest {
    DeviceRequest::Compute {
        curve: C::curve_id(),
        npoints,
        montgomery: C::montgomery_flag(),
    }
}

/// What `multiply` owes.
pub open spec fn multiply_post<C: CurveBinding>(
    selector: BackendSelector,
    points: Seq<C::Affine>,
    scalars: Seq<C::Scalar>,
    r: Result<Outcome<C::Point>, MsmError>,
) -> bool {
    if points.len() != scalars.len() {
        r == Err::<Outcome<C::Point>, MsmError>(MsmError::LengthMismatch)
    } else if selector.choice(points.len()) == Backend::Gpu {
        r == Ok::<Outcome<C::Point>, MsmError>(
            Outcome::OnDevice(compute_request::<C>(points.len() as usize)),
        )
    } else {
        host_post::<C>(points, scalars, r)
    }
}

/// The multi-scalar multiplication of `points` by `scalars`, in one shot.
///
/// Slices of different lengths fail with `LengthMismatch` before any
/// backend is touched. Otherwise the selector decides: on the host the
/// result is computed, for the device the request comes back.
pub fn multiply<C: CurveBinding>(
    selector: &BackendSelector,
    points: &[C::Affine],
    scalars: &[C::Scalar],
) -> (r: Result<Outcome<C::Point>, MsmError>)
    ensures
        multiply_post::<C>(*selector, points@, scalars@, r),
        points@.len() != scalars@.len() <==> r == Err::<Outcome<C::Point>, MsmError>(
            MsmError::LengthMismatch,
        ),
{
    let npoints = points.len();
    if npoints != scalars.len() {
        return Err(MsmError::LengthMismatch);
    }
    match selector.select(npoints) {
        Backend::Gpu => Ok(
            Outcome::OnDevice(
                DeviceRequest::Compute { curve: C::id(), npoints, montgomery: C::montgomery() },
            ),
        ),
        Backend::Cpu => Ok(Outcome::Done(host_runs::<C>(points, scalars, HOST_BATCH_LIMIT))),
    }
}

/// The request of a context construction that resolved to the device.
pub open spec fn precompute_request<C: CurveBinding>(npoints: usize) -> DeviceRequest {
    DeviceRequest::Precompute { curve: C::curve_id(), npoints }
}

/// What `init_context` returns.
pub open spec fn init_result<'a, C: CurveBinding>(
    selector: BackendSelector,
    points: &'a [C::Affine],
) -> Outcome<MSMContext<'a, C::Affine>> {
    if selector.device_enabled() {
        Outcome::OnDevice(precompute_request::<C>(points@.len() as usize))
    } else {
        Outcome::Done(MSMContext::CPU(points))
    }
}

/// Binds a point set to a backend, once, for the calls that follow.
///
/// Where the device is enabled the context belongs to it, whatever the
/// number of points: the request comes back, and the device's answer goes
/// to `MSMContext::from_device_precompute`, which does not fall back to
/// the host. Otherwise the context borrows the points for the host.
pub fn init_context<'a, C: CurveBinding>(selector: &BackendSelector, points: &'a [C::Affine]) -> (r:
    Outcome<MSMContext<'a, C::Affine>>)
    ensures
        r == init_result::<C>(*selector, points),
{
    if selector.device_ready() {
        Outcome::OnDevice(DeviceRequest::Precompute { curve: C::id(), npoints: points.len() })
    } else {
        Outcome::Done(MSMContext::new_cpu(points))
    }
}

/// The request of a call on a device context.
pub open spec fn compute_with_request<C: CurveBinding>(
    context: usize,
    nscalars: usize,
) -> DeviceRequest {
    DeviceRequest::ComputeWith {
        curve: C::curve_id(),
        context,
        nscalars,
        montgomery: C::montgomery_flag(),
    }
}

/// What `multiply_with_context` owes.
pub open spec fn with_post<C: CurveBinding>(
    context: MSMContext<C::Affine>,
    scalars: Seq<C::Scalar>,
    r: Result<Outcome<C::Point>, MsmError>,
) -> bool {
    match context {
        MSMContext::Uninit => r == Err::<Outcome<C::Point>, MsmError>(
            MsmError::UninitializedContext,
        ),
        MSMContext::CPU(points) => if scalars.len() > points@.len() {
            r == Err::<Outcome<C::Point>, MsmError>(MsmError::InsufficientPoints)
        } else {
            host_post::<C>(points@, scalars, r)
        },
        MSMContext::CUDA(c) => if scalars.len() > c.npoints {
            r == Err::<Outcome<C::Point>, MsmError>(MsmError::InsufficientPoints)
        } else if !c.is_live() {
            r == Err::<Outcome<C::Point>, MsmError>(MsmError::UninitializedContext)
        } else {
            r == Ok::<Outcome<C::Point>, MsmError>(
                Outcome::OnDevice(compute_with_request::<C>(c.context, scalars.len() as usize)),
            )
        },
    }
}

/// The multi-scalar multiplication of a context's first points by
/// `scalars`.
///
/// The backend is the context's: a host context computes here, a device
/// context hands back the request, whatever the batch's length and
/// whatever a selector says by now. A batch longer than the point set
/// fails with `InsufficientPoints`; a context without a point set, or one
/// whose device memory is released, with `UninitializedContext`.
pub fn multiply_with_context<C: CurveBinding>(
    context: &MSMContext<'_, C::Affine>,
    scalars: &[C::Scalar],
) -> (r: Result<Outcome<C::Point>, MsmError>)
    ensures
        with_post::<C>(*context, scalars@, r),
        context.point_count() matches Some(n) && scalars@.len() > n ==> r == Err::<
            Outcome<C::Point>,
            MsmError,
        >(MsmError::InsufficientPoints),
{
    let nscalars = scalars.len();
    match context {
        MSMContext::Uninit => Err(MsmError::UninitializedContext),
        MSMContext::CPU(points) => {
            if nscalars > points.len() {
                return Err(MsmError::InsufficientPoints);
            }
            Ok(Outcome::Done(host_runs::<C>(*points, scalars, HOST_BATCH_LIMIT)))
        },
        MSMContext::CUDA(cuda_context) => {
            if nscalars > cuda_context.npoints {
                Err(MsmError::InsufficientPoints)
            } else if !cuda_context.live() {
                Err(MsmError::UninitializedContext)
            } else {
                Ok(
                    Outcome::OnDevice(
                        DeviceRequest::ComputeWith {
                            curve: C::id(),
                            context: cuda_context.context,
                            nscalars,
                            montgomery: C::montgomery(),
                        },
                    ),
                )
            }
        },
    }
}

/// What `finish_compute` returns.
pub open spec fn finish_result<C: CurveBinding>(
    status: StatusCode,
    x: C::Base,
    y: C::Base,
    z: C::Base,
) -> Result<C::Point, MsmError> {
    match compute_failure(status) {
        Some(e) => Err(e),
        None => match C::decode(x, y, z) {
            Some(p) => Ok(p),
            None => Err(MsmError::InvalidPoint),
        },
    }
}

/// Turns what a native compute call returned into a result.
///
/// A nonzero status fails with the status's own code and text, and the
/// coordinates are not looked at. With status zero the coordinate triple
/// is checked: the point it encodes is the result, and a triple that
/// encodes none fails with `InvalidPoint`.
pub fn finish_compute<C: CurveBinding>(status: StatusCode, x: C::Base, y: C::Base, z: C::Base) -> (r:
    Result<C::Point, MsmError>)
    ensures
        r == finish_result::<C>(status, x, y, z),
{
    match check_compute(status) {
        Err(e) => Err(e),
        Ok(()) => match C::from_jacobian(x, y, z) {
            Some(p) => Ok(p),
            None => Err(MsmError::InvalidPoint),
        },
    }
}

} // verus!
