use halo2curves::bn256;
use halo2curves::ff::Field;
use halo2curves::group::{Curve, Group};
use halo2curves::grumpkin;
use msm_dispatch::bn256::Bn256;
use msm_dispatch::context::{CudaMSMContext, MSMContext};
use msm_dispatch::curve::CurveId;
use msm_dispatch::dispatch::{
    init_context, multiply, multiply_with_context, DeviceRequest, Outcome,
};
use msm_dispatch::pasta::{pallas, vesta, Pallas, Vesta};
use msm_dispatch::selector::BackendSelector;
use msm_dispatch::status::MsmError;
use pasta_curves::{Ep, EpAffine, EqAffine, Fp, Fq};
use rand::SeedableRng;
use rand_chacha::ChaCha20Rng;
use rayon::iter::{IndexedParallelIterator, IntoParallelRefIterator, ParallelIterator};

fn host() -> BackendSelector {
    BackendSelector::host_only()
}

fn device() -> BackendSelector {
    let mut selector = BackendSelector::new(true);
    selector.record_probe(true);
    selector
}

fn done<T: std::fmt::Debug>(r: Result<Outcome<T>, MsmError>) -> T {
    match r {
        Ok(Outcome::Done(point)) => point,
        other => panic!("no result: {:?}", other),
    }
}

fn pallas_inputs(n: usize, seed: u64) -> (Vec<EpAffine>, Vec<Fq>) {
    let mut rng = ChaCha20Rng::seed_from_u64(seed);
    let points = (0..n).map(|_| Ep::random(&mut rng).to_affine()).collect();
    let scalars = (0..n).map(|_| Fq::random(&mut rng)).collect();
    (points, scalars)
}

fn bn256_inputs(n: usize, seed: u64) -> (Vec<bn256::G1Affine>, Vec<bn256::Fr>) {
    let mut rng = ChaCha20Rng::seed_from_u64(seed);
    let points = (0..n).map(|_| bn256::G1Affine::random(&mut rng)).collect();
    let scalars = (0..n).map(|_| bn256::Fr::random(&mut rng)).collect();
    (points, scalars)
}

fn bn256_sum(points: &[bn256::G1Affine], scalars: &[bn256::Fr]) -> bn256::G1 {
    points.par_iter().zip(scalars.par_iter()).map(|(p, s)| p * s).sum()
}

fn pallas_sum(points: &[EpAffine], scalars: &[Fq]) -> Ep {
    points.par_iter().zip(scalars.par_iter()).map(|(p, s)| p * s).sum()
}

#[test]
fn pallas_matches_the_weighted_sum_of_1024_points() {
    let (points, scalars) = pallas_inputs(1024, 1);
    let expected = pallas_sum(&points, &scalars);
    assert_eq!(done(pallas(&host(), &points, &scalars)), expected);
}

#[test]
fn vesta_matches_the_weighted_sum_of_1024_points() {
    let mut rng = ChaCha20Rng::seed_from_u64(2);
    let points: Vec<EqAffine> =
        (0..1024).map(|_| pasta_curves::vesta::Point::random(&mut rng).to_affine()).collect();
    let scalars: Vec<Fp> = (0..1024).map(|_| Fp::random(&mut rng)).collect();
    let expected: pasta_curves::vesta::Point =
        points.par_iter().zip(scalars.par_iter()).map(|(p, s)| p * s).sum();
    assert_eq!(done(vesta(&host(), &points, &scalars)), expected);
}

#[test]
fn bn256_matches_the_weighted_sum_of_1024_points() {
    let (points, scalars) = bn256_inputs(1024, 3);
    let expected = bn256_sum(&points, &scalars);
    assert_eq!(done(msm_dispatch::bn256::msm(&host(), &points, &scalars)), expected);
}

#[test]
fn grumpkin_matches_the_weighted_sum_of_1024_points() {
    let mut rng = ChaCha20Rng::seed_from_u64(4);
    let points: Vec<grumpkin::G1Affine> =
        (0..1024).map(|_| grumpkin::G1Affine::random(&mut rng)).collect();
    let scalars: Vec<grumpkin::Fr> = (0..1024).map(|_| grumpkin::Fr::random(&mut rng)).collect();
    let expected: grumpkin::G1 =
        points.par_iter().zip(scalars.par_iter()).map(|(p, s)| p * s).sum();
    assert_eq!(done(msm_dispatch::grumpkin::msm(&host(), &points, &scalars)), expected);
}

#[test]
fn context_over_4096_points_serves_batches_of_4096_2048_and_1() {
    let (points, scalars) = bn256_inputs(4096, 5);
    let context = match msm_dispatch::bn256::init(&host(), &points) {
        Outcome::Done(context) => context,
        other => panic!("no host context: {:?}", other),
    };
    assert_eq!(context.npoints(), Ok(4096));
    for n in [4096usize, 2048, 1] {
        let expected = bn256_sum(&points[..n], &scalars[..n]);
        assert_eq!(done(msm_dispatch::bn256::with(&context, &scalars[..n])), expected);
    }
}

#[test]
fn grumpkin_context_matches_the_sum_over_the_prefix() {
    let mut rng = ChaCha20Rng::seed_from_u64(6);
    let points: Vec<grumpkin::G1Affine> =
        (0..64).map(|_| grumpkin::G1Affine::random(&mut rng)).collect();
    let scalars: Vec<grumpkin::Fr> = (0..40).map(|_| grumpkin::Fr::random(&mut rng)).collect();
    let context = match msm_dispatch::grumpkin::init(&host(), &points) {
        Outcome::Done(context) => context,
        other => panic!("no host context: {:?}", other),
    };
    let expected: grumpkin::G1 =
        points[..40].par_iter().zip(scalars.par_iter()).map(|(p, s)| p * s).sum();
    assert_eq!(done(msm_dispatch::grumpkin::with(&context, &scalars)), expected);
}

#[test]
fn context_call_equals_one_shot_call_on_the_prefix() {
    let (points, scalars) = pallas_inputs(96, 7);
    let context = match init_context::<Pallas>(&host(), &points) {
        Outcome::Done(context) => context,
        other => panic!("no host context: {:?}", other),
    };
    for n in [96usize, 95, 33, 4, 3, 1, 0] {
        let via_context = done(multiply_with_context::<Pallas>(&context, &scalars[..n]));
        let one_shot = done(multiply::<Pallas>(&host(), &points[..n], &scalars[..n]));
        assert_eq!(via_context, one_shot);
    }
}

#[test]
fn context_call_repeats_its_result() {
    let (points, scalars) = bn256_inputs(50, 8);
    let context = MSMContext::new_cpu(&points);
    let first = done(msm_dispatch::bn256::with(&context, &scalars));
    let second = done(msm_dispatch::bn256::with(&context, &scalars));
    assert_eq!(first, second);
    assert_eq!(first.to_affine(), second.to_affine());
}

#[test]
fn one_point_times_two_is_the_point_doubled() {
    let g = Ep::generator();
    let points = vec![g.to_affine()];
    let scalars = vec![Fq::from(2u64)];
    assert_eq!(done(pallas(&host(), &points, &scalars)), g.double());
}

#[test]
fn small_sum_is_exact() {
    let g = bn256::G1::generator();
    let points = vec![g.to_affine(), g.double().to_affine(), (g.double() + g).to_affine()];
    let scalars = vec![bn256::Fr::from(5u64), bn256::Fr::from(7u64), bn256::Fr::from(11u64)];
    // 5 * 1 + 7 * 2 + 11 * 3 = 52
    let expected = g * bn256::Fr::from(52u64);
    assert_eq!(done(msm_dispatch::bn256::msm(&host(), &points, &scalars)), expected);
}

#[test]
fn zero_scalars_give_the_identity() {
    let (points, _) = pallas_inputs(10, 9);
    let scalars = vec![Fq::ZERO; 10];
    assert_eq!(done(pallas(&host(), &points, &scalars)), Ep::identity());
}

#[test]
fn identity_points_give_the_identity() {
    let points = vec![EpAffine::default(); 6];
    let scalars: Vec<Fq> = (1..7u64).map(Fq::from).collect();
    assert_eq!(done(pallas(&host(), &points, &scalars)), Ep::identity());
}

#[test]
fn empty_batch_gives_the_identity() {
    let points: Vec<EpAffine> = Vec::new();
    let scalars: Vec<Fq> = Vec::new();
    assert_eq!(done(pallas(&host(), &points, &scalars)), Ep::identity());
    let context = MSMContext::new_cpu(&points);
    assert_eq!(done(multiply_with_context::<Pallas>(&context, &scalars)), Ep::identity());
}

#[test]
fn different_lengths_fail_on_every_curve() {
    let r = pallas(&host(), &vec![EpAffine::default(); 3], &vec![Fq::ONE; 2]);
    assert!(matches!(r, Err(MsmError::LengthMismatch)));
    let r = vesta(&host(), &vec![EqAffine::default(); 2], &vec![Fp::ONE; 3]);
    assert!(matches!(r, Err(MsmError::LengthMismatch)));
    let r = msm_dispatch::bn256::msm(
        &host(),
        &vec![bn256::G1Affine::default(); 1],
        &vec![bn256::Fr::ONE; 0],
    );
    assert!(matches!(r, Err(MsmError::LengthMismatch)));
    let r = msm_dispatch::grumpkin::msm(
        &host(),
        &vec![grumpkin::G1Affine::default(); 0],
        &vec![grumpkin::Fr::ONE; 1],
    );
    assert!(matches!(r, Err(MsmError::LengthMismatch)));
}

#[test]
fn different_lengths_fail_before_the_selector_is_asked() {
    let points = vec![EpAffine::default(); 1 << 16];
    let scalars = vec![Fq::ONE; (1 << 16) + 1];
    let r = pallas(&device(), &points, &scalars);
    assert!(matches!(r, Err(MsmError::LengthMismatch)));
}

#[test]
fn too_many_scalars_fail_on_a_host_context() {
    let (points, scalars) = bn256_inputs(5, 10);
    let context = MSMContext::new_cpu(&points[..4]);
    let r = msm_dispatch::bn256::with(&context, &scalars);
    assert!(matches!(r, Err(MsmError::InsufficientPoints)));
    let empty: Vec<bn256::G1Affine> = Vec::new();
    let context = MSMContext::new_cpu(&empty);
    let r = msm_dispatch::bn256::with(&context, &scalars[..1]);
    assert!(matches!(r, Err(MsmError::InsufficientPoints)));
}

#[test]
fn too_many_scalars_fail_on_a_device_context() {
    let context = MSMContext::new_cuda(CudaMSMContext::new(9, 4));
    let scalars = vec![bn256::Fr::ONE; 5];
    let r = msm_dispatch::bn256::with(&context, &scalars);
    assert!(matches!(r, Err(MsmError::InsufficientPoints)));
    let mut released = MSMContext::new_cuda(CudaMSMContext::new(9, 4));
    released.release();
    let r = msm_dispatch::bn256::with(&released, &scalars);
    assert!(matches!(r, Err(MsmError::InsufficientPoints)));
}

#[test]
fn uninitialized_context_fails() {
    let context: MSMContext<bn256::G1Affine> = MSMContext::default();
    let r = msm_dispatch::bn256::with(&context, &vec![bn256::Fr::ONE; 1]);
    assert!(matches!(r, Err(MsmError::UninitializedContext)));
    let r = msm_dispatch::bn256::with(&context, &Vec::new());
    assert!(matches!(r, Err(MsmError::UninitializedContext)));
}

#[test]
fn released_device_context_fails() {
    let mut context = MSMContext::new_cuda(CudaMSMContext::new(9, 4));
    assert_eq!(context.release(), Some(9));
    let r = msm_dispatch::bn256::with(&context, &vec![bn256::Fr::ONE; 4]);
    assert!(matches!(r, Err(MsmError::UninitializedContext)));
}

#[test]
fn large_batch_goes_to_the_device_when_there_is_one() {
    let points = vec![EpAffine::default(); 1 << 16];
    let scalars = vec![Fq::ONE; 1 << 16];
    match pallas(&device(), &points, &scalars) {
        Ok(Outcome::OnDevice(request)) => assert_eq!(
            request,
            DeviceRequest::Compute {
                curve: CurveId::Pallas,
                npoints: 65536,
                montgomery: Some(true)
            }
        ),
        other => panic!("not handed to the device: {:?}", other),
    }
    match msm_dispatch::grumpkin::msm(
        &device(),
        &vec![grumpkin::G1Affine::default(); 1 << 16],
        &vec![grumpkin::Fr::ONE; 1 << 16],
    ) {
        Ok(Outcome::OnDevice(request)) => assert_eq!(
            request,
            DeviceRequest::Compute { curve: CurveId::Grumpkin, npoints: 65536, montgomery: None }
        ),
        other => panic!("not handed to the device: {:?}", other),
    }
}

#[test]
fn small_batch_stays_on_the_host_when_there_is_a_device() {
    let (points, scalars) = pallas_inputs(8, 11);
    let expected = pallas_sum(&points, &scalars);
    assert_eq!(done(pallas(&device(), &points, &scalars)), expected);
}

#[test]
fn one_shot_falls_back_to_the_host_without_a_device() {
    let points = vec![EpAffine::default(); 1 << 16];
    let scalars = vec![Fq::ONE; 1 << 16];
    let mut selector = BackendSelector::new(true);
    selector.record_probe(false);
    assert_eq!(done(pallas(&selector, &points, &scalars)), Ep::identity());
    let mut selector = device();
    selector.set_switched_off(true);
    assert_eq!(done(pallas(&selector, &points, &scalars)), Ep::identity());
}

#[test]
fn context_goes_to_the_device_whatever_its_size() {
    let (points, _) = bn256_inputs(3, 12);
    match msm_dispatch::bn256::init(&device(), &points) {
        Outcome::OnDevice(request) => {
            assert_eq!(request, DeviceRequest::Precompute { curve: CurveId::Bn256, npoints: 3 })
        }
        other => panic!("not handed to the device: {:?}", other),
    }
    match init_context::<Vesta>(&device(), &Vec::new()) {
        Outcome::OnDevice(request) => {
            assert_eq!(request, DeviceRequest::Precompute { curve: CurveId::Vesta, npoints: 0 })
        }
        other => panic!("not handed to the device: {:?}", other),
    }
}

#[test]
fn context_stays_on_the_host_without_a_device() {
    let (points, _) = bn256_inputs(3, 13);
    let mut selector = device();
    selector.set_switched_off(true);
    match msm_dispatch::bn256::init(&selector, &points) {
        Outcome::Done(MSMContext::CPU(held)) => assert_eq!(held, &points[..]),
        other => panic!("not a host context: {:?}", other),
    }
}

#[test]
fn device_context_computes_on_the_device_whatever_the_batch() {
    let context = MSMContext::new_cuda(CudaMSMContext::new(0x4000, 4096));
    for n in [1usize, 2048, 4096] {
        let scalars = vec![bn256::Fr::ONE; n];
        match multiply_with_context::<Bn256>(&context, &scalars) {
            Ok(Outcome::OnDevice(request)) => assert_eq!(
                request,
                DeviceRequest::ComputeWith {
                    curve: CurveId::Bn256,
                    context: 0x4000,
                    nscalars: n,
                    montgomery: None
                }
            ),
            other => panic!("not handed to the device: {:?}", other),
        }
    }
}

#[test]
fn host_context_computes_on_the_host_whatever_the_batch() {
    let points = vec![EpAffine::default(); 1 << 16];
    let scalars = vec![Fq::ONE; 1 << 16];
    let context = MSMContext::new_cpu(&points);
    assert_eq!(done(multiply_with_context::<Pallas>(&context, &scalars)), Ep::identity());
}

#[test]
fn outcome_gives_its_result_or_its_request() {
    let request = DeviceRequest::Precompute { curve: CurveId::Pallas, npoints: 2 };
    let on_device: Outcome<u8> = Outcome::OnDevice(request);
    assert_eq!(on_device.request(), Some(request));
    assert_eq!(on_device.done(), None);
    let finished: Outcome<u8> = Outcome::Done(7);
    assert_eq!(finished.request(), None);
    assert_eq!(finished.done(), Some(7));
}
