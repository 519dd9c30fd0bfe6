use halo2curves::bn256;
use halo2curves::ff::Field;
use halo2curves::group::{Curve, Group};
use halo2curves::grumpkin;
use msm_dispatch::bn256::Bn256;
use msm_dispatch::curve::{reference_sum, CurveBinding};
use msm_dispatch::dispatch::{host_compute, Outcome};
use msm_dispatch::grumpkin::Grumpkin;
use msm_dispatch::pasta::{Pallas, Vesta};
use msm_dispatch::selector::BackendSelector;
use msm_dispatch::status::MsmError;
use pasta_curves::{pallas, vesta};
use rand::SeedableRng;
use rand_chacha::ChaCha20Rng;

fn bn256_inputs(n: usize, seed: u64) -> (Vec<bn256::G1Affine>, Vec<bn256::Fr>) {
    let mut rng = ChaCha20Rng::seed_from_u64(seed);
    let points = (0..n).map(|_| bn256::G1Affine::random(&mut rng)).collect();
    let scalars = (0..n).map(|_| bn256::Fr::random(&mut rng)).collect();
    (points, scalars)
}

fn plain_sum(points: &[bn256::G1Affine], scalars: &[bn256::Fr]) -> bn256::G1 {
    let mut acc = bn256::G1::identity();
    for (p, s) in points.iter().zip(scalars.iter()) {
        acc += p * s;
    }
    acc
}

#[test]
fn runs_give_the_sum_of_the_whole_batch() {
    let (points, scalars) = bn256_inputs(10, 21);
    let expected = plain_sum(&points, &scalars);
    for run in [1usize, 2, 3, 4, 5, 9, 10, 11, 1000] {
        assert_eq!(host_compute::<Bn256>(&points, &scalars, run), Some(expected));
    }
}

#[test]
fn runs_leave_out_the_points_beyond_the_last_scalar() {
    let (points, scalars) = bn256_inputs(10, 22);
    let expected = plain_sum(&points[..7], &scalars[..7]);
    for run in [1usize, 3, 7, 8] {
        assert_eq!(host_compute::<Bn256>(&points, &scalars[..7], run), Some(expected));
    }
}

#[test]
fn runs_over_no_scalars_give_the_identity() {
    let (points, _) = bn256_inputs(3, 23);
    assert_eq!(host_compute::<Bn256>(&points, &[], 2), Some(bn256::G1::identity()));
    assert_eq!(host_compute::<Bn256>(&[], &[], 1), Some(bn256::G1::identity()));
}

#[test]
fn runs_need_enough_points_and_a_length() {
    let (points, scalars) = bn256_inputs(3, 27);
    assert_eq!(host_compute::<Bn256>(&points[..2], &scalars, 2), None);
    assert_eq!(host_compute::<Bn256>(&points, &scalars, 0), None);
    assert!(host_compute::<Bn256>(&points, &scalars, u32::MAX as usize).is_some());
}

#[test]
fn scale_point_is_the_product() {
    let g = pallas::Point::generator();
    let five = pallas::Scalar::from(5u64);
    assert_eq!(Pallas::scale_point(&g.to_affine(), &five), g.double().double() + g);
    let g = vesta::Point::generator();
    let five = vesta::Scalar::from(5u64);
    assert_eq!(Vesta::scale_point(&g.to_affine(), &five), g.double().double() + g);
    let g = bn256::G1::generator();
    let five = bn256::Fr::from(5u64);
    assert_eq!(Bn256::scale_point(&g.to_affine(), &five), g.double().double() + g);
    let g = grumpkin::G1::generator();
    let five = grumpkin::Fr::from(5u64);
    assert_eq!(Grumpkin::scale_point(&g.to_affine(), &five), g.double().double() + g);
}

#[test]
fn sum_points_adds_them_up() {
    let g = pallas::Point::generator();
    assert_eq!(Pallas::sum_points(&[g, g.double(), g]), g.double().double());
    assert_eq!(Pallas::sum_points(&[]), pallas::Point::identity());
    let g = vesta::Point::generator();
    assert_eq!(Vesta::sum_points(&[g, g.double(), g]), g.double().double());
    assert_eq!(Vesta::sum_points(&[]), vesta::Point::identity());
    let g = bn256::G1::generator();
    assert_eq!(Bn256::sum_points(&[g, g.double(), g]), g.double().double());
    assert_eq!(Bn256::sum_points(&[]), bn256::G1::identity());
    let g = grumpkin::G1::generator();
    assert_eq!(Grumpkin::sum_points(&[g, g.double(), g]), g.double().double());
    assert_eq!(Grumpkin::sum_points(&[]), grumpkin::G1::identity());
}

#[test]
fn reference_sum_is_exact() {
    let g = grumpkin::G1::generator();
    let points = vec![g.to_affine(), g.double().to_affine()];
    let scalars = vec![grumpkin::Fr::from(3u64), grumpkin::Fr::from(4u64)];
    // 3 * 1 + 4 * 2 = 11
    let expected = g * grumpkin::Fr::from(11u64);
    assert_eq!(reference_sum::<Grumpkin>(&points, &scalars), Ok(expected));
    assert_eq!(reference_sum::<Grumpkin>(&[], &[]), Ok(grumpkin::G1::identity()));
}

#[test]
fn reference_sum_rejects_slices_of_different_lengths() {
    let (points, scalars) = bn256_inputs(3, 24);
    assert_eq!(reference_sum::<Bn256>(&points, &scalars[..2]), Err(MsmError::LengthMismatch));
    assert_eq!(reference_sum::<Bn256>(&points[..2], &scalars), Err(MsmError::LengthMismatch));
}

#[test]
fn one_shot_call_agrees_with_the_reference_on_every_curve() {
    let host = BackendSelector::host_only();
    let mut rng = ChaCha20Rng::seed_from_u64(25);

    let points: Vec<pallas::Affine> =
        (0..50).map(|_| pallas::Point::random(&mut rng).to_affine()).collect();
    let scalars: Vec<pallas::Scalar> = (0..50).map(|_| pallas::Scalar::random(&mut rng)).collect();
    let reference = reference_sum::<Pallas>(&points, &scalars).unwrap();
    match msm_dispatch::pasta::pallas(&host, &points, &scalars) {
        Ok(Outcome::Done(p)) => assert_eq!(p, reference),
        other => panic!("no result: {:?}", other),
    }

    let points: Vec<vesta::Affine> =
        (0..50).map(|_| vesta::Point::random(&mut rng).to_affine()).collect();
    let scalars: Vec<vesta::Scalar> = (0..50).map(|_| vesta::Scalar::random(&mut rng)).collect();
    let reference = reference_sum::<Vesta>(&points, &scalars).unwrap();
    match msm_dispatch::pasta::vesta(&host, &points, &scalars) {
        Ok(Outcome::Done(p)) => assert_eq!(p, reference),
        other => panic!("no result: {:?}", other),
    }

    let (points, scalars) = bn256_inputs(50, 26);
    let reference = reference_sum::<Bn256>(&points, &scalars).unwrap();
    match msm_dispatch::bn256::msm(&host, &points, &scalars) {
        Ok(Outcome::Done(p)) => assert_eq!(p, reference),
        other => panic!("no result: {:?}", other),
    }

    let points: Vec<grumpkin::G1Affine> =
        (0..50).map(|_| grumpkin::G1Affine::random(&mut rng)).collect();
    let scalars: Vec<grumpkin::Fr> = (0..50).map(|_| grumpkin::Fr::random(&mut rng)).collect();
    let reference = reference_sum::<Grumpkin>(&points, &scalars).unwrap();
    match msm_dispatch::grumpkin::msm(&host, &points, &scalars) {
        Ok(Outcome::Done(p)) => assert_eq!(p, reference),
        other => panic!("no result: {:?}", other),
    }
}
