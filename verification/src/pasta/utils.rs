//! Random Pallas inputs and a reference sum to hold a result against.

use pasta_curves::arithmetic::CurveExt;
use pasta_curves::group::ff::Field;
use pasta_curves::group::Curve;
use pasta_curves::{Ep, EpAffine, Fq};
use rand::{RngCore, SeedableRng};
use rand_chacha::ChaCha20Rng;
use rayon::iter::{IndexedParallelIterator, IntoParallelRefIterator, ParallelIterator};
use vstd::prelude::*;
use vstd::slice::slice_subrange;
use vstd::string::is_ascii;

use crate::curve::{msm_sum, products, CurveBinding};
use crate::pasta::{pallas_scale, Pallas};

verus! {

/// The ChaCha generator with twenty rounds.
#[verifier::external_type_specification]
#[verifier::external_body]
pub struct ChaChaDecl(rand_chacha::ChaCha20Rng);

/// What the function that `Ep::hash_to_curve` returns for a domain prefix
/// makes of a message.
pub uninterp spec fn pallas_hash(domain: Seq<char>, message: Seq<u8>) -> Ep;

/// What `Ep::to_affine` returns.
pub uninterp spec fn pallas_affine(p: Ep) -> EpAffine;

/// Calls `ChaCha20Rng::from_entropy`: a generator seeded by the operating
/// system. Nothing is known of what it will give.
#[verifier::external_body]
fn fresh_rng() -> ChaCha20Rng {
    ChaCha20Rng::from_entropy()
}

/// Calls `fill_bytes` on a new buffer of `len` bytes. Only the length is
/// known of the result.
#[verifier::external_body]
fn random_bytes(rng: &mut ChaCha20Rng, len: usize) -> (r: Vec<u8>)
    ensures
        r@.len() == len,
{
    let mut rnd = vec![0u8; len];
    rng.fill_bytes(&mut rnd);
    rnd
}

/// Calls `Fq::random`. Nothing is known of the result.
#[verifier::external_body]
fn random_scalar(rng: &mut ChaCha20Rng) -> Fq {
    Fq::random(rng)
}

/// Calls `Ep::hash_to_curve` and the function that it returns. The
/// prefix goes into one length byte together with the curve's name and a
/// fixed suffix: the call panics on a prefix of 228 bytes or more.
#[verifier::external_body]
fn hash_to_curve(domain: &str, message: &[u8]) -> (r: Ep)
    requires
        is_ascii(domain),
        domain@.len() < 228,
    ensures
        r == pallas_hash(domain@, message@),
{
    let hash = Ep::hash_to_curve(domain);
    hash(message)
}

/// Calls `Ep::batch_normalize` into a new vector. The group crate
/// documents it as the conversion of each element to affine coordinates;
/// it panics only on slices of different lengths.
#[verifier::external_body]
fn batch_normalize(points: &[Ep]) -> (r: Vec<EpAffine>)
    ensures
        r@.len() == points@.len(),
        forall|i: int| 0 <= i < points@.len() ==> #[trigger] r@[i] == pallas_affine(points@[i]),
{
    let mut normalized = vec![EpAffine::default(); points.len()];
    Ep::batch_normalize(points, &mut normalized);
    normalized
}

/// Calls `Ep::to_affine`.
#[verifier::external_body]
fn to_affine(p: &Ep) -> (r: EpAffine)
    ensures
        r == pallas_affine(*p),
{
    p.to_affine()
}

/// Runs `Pallas::scale_point` over the pairs of two slices on rayon's
/// thread pool and collects what it returns: rayon's `par_iter`,
/// `zip_eq`, `map` and `collect`. The items of an indexed parallel
/// iterator are collected in the iterator's order, and `zip_eq` panics on
/// slices of different lengths.
#[verifier::external_body]
fn par_terms(points: &[EpAffine], scalars: &[Fq]) -> (r: Vec<Ep>)
    requires
        points@.len() == scalars@.len(),
    ensures
        r@.len() == scalars@.len(),
        forall|i: int|
            0 <= i < scalars@.len() ==> #[trigger] r@[i] == pallas_scale(points@[i], scalars@[i]),
{
    points.par_iter().zip_eq(scalars.par_iter()).map(|(p, s)| Pallas::scale_point(p, s)).collect()
}

/// The number of seed bytes that make one point.
pub const SEED_BYTES: usize = 32;

/// The number of points that are normalised together.
pub const STRIDE: usize = 1024;

/// The seed bytes of the point with index `i`.
pub open spec fn seed_chunk(seed: Seq<u8>, i: int) -> Seq<u8> {
    seed.subrange(32 * i, 32 * i + 32)
}

/// The domain prefix under which seeds are hashed.
pub open spec fn hash_domain() -> Seq<char> {
    "foobar"@
}

/// The points that a seed gives: the `i`-th is the hash to the curve of
/// the seed's `i`-th run of 32 bytes, in affine coordinates.
pub open spec fn seeded_points(seed: Seq<u8>, npoints: nat) -> Seq<EpAffine> {
    Seq::new(npoints, |i: int| pallas_affine(pallas_hash(hash_domain(), seed_chunk(seed, i))))
}

/// Hashes each full run of 32 seed bytes to a point of the curve. Bytes
/// after the last full run are not used.
pub fn points_from_seed(seed: &[u8]) -> (r: Vec<EpAffine>)
    ensures
        r@ == seeded_points(seed@, (seed@.len() / 32) as nat),
{
    let domain = "foobar";
    proof {
        reveal_strlit("foobar");
    }
    let npoints = seed.len() / SEED_BYTES;
    let mut ret: Vec<EpAffine> = Vec::new();
    let mut work: usize = 0;
    while work < npoints
        invariant
            work <= npoints,
            32 * npoints <= seed@.len() <= usize::MAX,
            domain@ == hash_domain(),
            is_ascii(domain),
            domain@.len() < 228,
            ret@ == seeded_points(seed@, work as nat),
        decreases npoints - work,
    {
        let stride = if npoints - work < STRIDE {
            npoints - work
        } else {
            STRIDE
        };
        let mut tmp: Vec<Ep> = Vec::new();
        let mut i: usize = 0;
        while i < stride
            invariant
                i <= stride,
                work + stride <= npoints,
                32 * npoints <= seed@.len() <= usize::MAX,
                is_ascii(domain),
                domain@.len() < 228,
                tmp@.len() == i,
                forall|j: int|
                    0 <= j < i ==> #[trigger] tmp@[j] == pallas_hash(
                        domain@,
                        seed_chunk(seed@, work + j),
                    ),
            decreases stride - i,
        {
            let off = (work + i) * SEED_BYTES;
            let chunk = slice_subrange(seed, off, off + SEED_BYTES);
            tmp.push(hash_to_curve(domain, chunk));
            i += 1;
        }
        let mut normalized = batch_normalize(tmp.as_slice());
        ret.append(&mut normalized);
        work += stride;
        proof {
            assert(ret@ =~= seeded_points(seed@, work as nat));
        }
    }
    ret
}

/// `npoints` random points of the curve: the points of a seed of
/// `32 * npoints` bytes that the operating system's entropy gives.
pub fn gen_points(npoints: usize) -> (r: Vec<EpAffine>)
    requires
        32 * npoints <= usize::MAX,
    ensures
        r@.len() == npoints,
        exists|seed: Seq<u8>| seed.len() == 32 * npoints && r@ == seeded_points(seed, npoints as nat),
{
    let mut rng = fresh_rng();
    let rnd = random_bytes(&mut rng, SEED_BYTES * npoints);
    points_from_seed(rnd.as_slice())
}

/// `npoints` random scalars.
pub fn gen_scalars(npoints: usize) -> (r: Vec<Fq>)
    ensures
        r@.len() == npoints,
{
    let mut rng = fresh_rng();
    let mut ret: Vec<Fq> = Vec::new();
    let mut work: usize = 0;
    while work < npoints
        invariant
            work <= npoints,
            ret@.len() == work,
        decreases npoints - work,
    {
        ret.push(random_scalar(&mut rng));
        work += 1;
    }
    ret
}

/// The reference result: each product `scalars[i] * points[i]` computed
/// by itself, the products summed, and the sum brought to affine
/// coordinates.
pub fn naive_multiscalar_mul(points: &[EpAffine], scalars: &[Fq]) -> (r: EpAffine)
    requires
        points@.len() == scalars@.len(),
    ensures
        r == pallas_affine(msm_sum::<Pallas>(points@, scalars@)),
{
    let terms = par_terms(points, scalars);
    proof {
        assert(terms@ =~= products::<Pallas>(points@, scalars@));
    }
    let total = Pallas::sum_points(terms.as_slice());
    to_affine(&total)
}

} // verus!
