//! A point set fixed once and used for many scalar batches.

use vstd::prelude::*;

use crate::status::{check_init, init_failure, MsmError, StatusCode};

verus! {

/// Points precomputed in device memory: the device's handle to them and
/// their number.
///
/// The value owns the device memory. `release` hands the handle out for
/// freeing exactly once and clears it; the type has no `Clone`, so no
/// second owner frees it again.
#[derive(Debug)]
pub struct CudaMSMContext {
    /// The device's handle; zero once the memory is released.
    pub context: usize,
    /// The number of points that were precomputed.
    pub npoints: usize,
}

impl CudaMSMContext {
    /// Whether the value still owns device memory.
    pub open spec fn is_live(&self) -> bool {
        self.context != 0
    }

    /// The handle that a release would hand out.
    pub open spec fn pending_release(&self) -> Option<usize> {
        if self.is_live() {
            Some(self.context)
        } else {
            None
        }
    }

    /// The value after a release: the same count, no handle.
    pub open spec fn released(&self) -> Self {
        CudaMSMContext { context: 0, npoints: self.npoints }
    }

    /// Takes ownership of what a device initialisation returned.
    pub fn new(context: usize, npoints: usize) -> (c: Self)
        ensures
            c == (CudaMSMContext { context, npoints }),
    {
        CudaMSMContext { context, npoints }
    }

    #[verifier::when_used_as_spec(is_live)]
    pub fn live(&self) -> (r: bool)
        ensures
            r == self.is_live(),
    {
        self.context != 0
    }

    /// Gives up the device memory: returns the handle that the caller has
    /// to free, and clears it. On a value that owns nothing it does
    /// nothing and returns nothing.
    pub fn release(&mut self) -> (freed: Option<usize>)
        ensures
            freed == old(self).pending_release(),
            *final(self) == old(self).released(),
    {
        if self.context != 0 {
            let handle = self.context;
            self.context = 0;
            Some(handle)
        } else {
            None
        }
    }
}

impl Default for CudaMSMContext {
    /// A context that owns nothing.
    fn default() -> (c: Self)
        ensures
            c == (CudaMSMContext { context: 0, npoints: 0 }),
    {
        CudaMSMContext { context: 0, npoints: 0 }
    }
}

/// A point set bound to the backend that will compute over it.
#[derive(Debug)]
pub enum MSMContext<'a, A> {
    /// The points are precomputed in device memory: calls run on the device.
    CUDA(CudaMSMContext),
    /// The points are borrowed from the caller: calls run on the host.
    CPU(&'a [A]),
    /// No point set yet.
    Uninit,
}

impl<'a, A> MSMContext<'a, A> {
    /// The number of points, where the context has a point set.
    pub open spec fn point_count(&self) -> Option<usize> {
        match *self {
            MSMContext::CUDA(c) => Some(c.npoints),
            MSMContext::CPU(points) => Some(points@.len() as usize),
            MSMContext::Uninit => None,
        }
    }

    /// A context over points in host memory. Nothing is computed or copied.
    pub fn new_cpu(points: &'a [A]) -> (c: Self)
        ensures
            c == MSMContext::CPU(points),
    {
        MSMContext::CPU(points)
    }

    /// A context over points that the device holds.
    pub fn new_cuda(cuda_context: CudaMSMContext) -> (c: Self)
        ensures
            c == MSMContext::<A>::CUDA(cuda_context),
    {
        MSMContext::CUDA(cuda_context)
    }

    /// Makes a device context of what the device initialisation answered:
    /// the context if the status is zero, else the failure with the
    /// status's code and text. There is no fallback to the host.
    pub fn from_device_precompute(status: StatusCode, context: usize, npoints: usize) -> (r: Result<
        Self,
        MsmError,
    >)
        ensures
            match init_failure(status) {
                Some(e) => r == Err::<Self, MsmError>(e),
                None => r == Ok::<Self, MsmError>(
                    MSMContext::CUDA(CudaMSMContext { context, npoints }),
                ),
            },
    {
        match check_init(status) {
            Ok(()) => Ok(MSMContext::CUDA(CudaMSMContext::new(context, npoints))),
            Err(e) => Err(e),
        }
    }

    /// The number of points. A context without a point set has none to
    /// count.
    pub fn npoints(&self) -> (r: Result<usize, MsmError>)
        ensures
            r == match self.point_count() {
                Some(n) => Ok::<usize, MsmError>(n),
                None => Err(MsmError::UninitializedContext),
            },
    {
        match self {
            MSMContext::CUDA(cuda_context) => Ok(cuda_context.npoints),
            MSMContext::CPU(points) => Ok(points.len()),
            MSMContext::Uninit => Err(MsmError::UninitializedContext),
        }
    }

    /// The device side of the context, if it has one.
    pub fn cuda(&self) -> (r: Option<&CudaMSMContext>)
        ensures
            r == match *self {
                MSMContext::CUDA(c) => Some(&c),
                _ => None,
            },
    {
        match self {
            MSMContext::CUDA(cuda_context) => Some(cuda_context),
            _ => None,
        }
    }

    /// The host side of the context, if it has one.
    pub fn points(&self) -> (r: Option<&'a [A]>)
        ensures
            r == match *self {
                MSMContext::CPU(points) => Some(points),
                _ => None,
            },
    {
        match self {
            MSMContext::CPU(points) => Some(*points),
            _ => None,
        }
    }

    /// The handle that a release would hand out.
    pub open spec fn pending_release(&self) -> Option<usize> {
        match *self {
            MSMContext::CUDA(c) => c.pending_release(),
            _ => None,
        }
    }

    /// The context after a release.
    pub open spec fn released(&self) -> Self {
        match *self {
            MSMContext::CUDA(c) => MSMContext::CUDA(c.released()),
            other => other,
        }
    }

    /// Gives up what the context owns. For a device context that still
    /// owns memory it returns the handle to free and clears it; for any
    /// other context it does nothing.
    pub fn release(&mut self) -> (freed: Option<usize>)
        ensures
            freed == old(self).pending_release(),
            *final(self) == old(self).released(),
    {
        match self {
            MSMContext::CUDA(cuda_context) => cuda_context.release(),
            _ => None,
        }
    }
}

impl<'a, A> Default for MSMContext<'a, A> {
    fn default() -> (c: Self)
        ensures
            c == MSMContext::<A>::Uninit,
    {
        MSMContext::Uninit
    }
}

} // verus!
