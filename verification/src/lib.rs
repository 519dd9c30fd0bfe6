//! Multi-scalar multiplication over the Pallas, Vesta, BN256 and Grumpkin
//! curves: the dispatch layer between a caller and the backends that
//! compute.
//!
//! A call is validated, bound to a backend, computed, and its result
//! checked. The host backend is built in. A device backend is the
//! embedding program's: where a call resolves to the device, the library
//! hands back a request, and takes the device's answer in a second call.
//!
//! - `status`: what a backend reports, and how a call can fail
//! - `selector`: which backend a one-shot call runs on
//! - `context`: a point set bound to one backend for many calls
//! - `curve`: what the dispatch layer needs to know of a curve
//! - `dispatch`: the entry points, for any curve
//! - `pasta`, `bn256`, `grumpkin`: the curves and their entry points
//! - `laws`: what holds across the entry points

pub mod status;
pub mod selector;
pub mod curve;
pub mod context;
pub mod dispatch;
pub mod pasta;
pub mod bn256;
pub mod grumpkin;
pub mod laws;
