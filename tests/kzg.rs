use ark_bls12_381::{Fr, G1Projective, G2Projective};
use ark_ec::{CurveGroup, Group};
use ark_ff::{FftField, One, PrimeField, Zero};
use kzg_core::curve::{pairings_verify, G1Point, G2Point};
use kzg_core::domain::{expand_root_of_unity, DomainError, FFTSettings};
use kzg_core::field::FieldElement;
use kzg_core::poly::{eval_poly, PolyData};
use kzg_core::settings::KZGSettings;
use kzg_core::setup::generate_trusted_setup;

fn fe(v: Fr) -> FieldElement {
    FieldElement { limbs: v.into_bigint().0 }
}

fn fe_u64(v: u64) -> FieldElement {
    fe(Fr::from(v))
}

fn g1(p: G1Projective) -> G1Point {
    let a = p.into_affine();
    G1Point { x: a.x.into_bigint().0, y: a.y.into_bigint().0, infinity: a.infinity }
}

fn g2(p: G2Projective) -> G2Point {
    let a = p.into_affine();
    G2Point {
        x_c0: a.x.c0.into_bigint().0,
        x_c1: a.x.c1.into_bigint().0,
        y_c0: a.y.c0.into_bigint().0,
        y_c1: a.y.c1.into_bigint().0,
        infinity: a.infinity,
    }
}

fn check_expansion(width: u64) {
    let root = Fr::get_root_of_unity(width).unwrap();
    let powers = expand_root_of_unity(&fe(root), width as usize).unwrap();
    assert_eq!(powers.len(), width as usize + 1);
    assert_eq!(powers[0], fe(Fr::one()));
    assert_eq!(powers[width as usize], fe(Fr::one()));
    let mut cur = Fr::one();
    for p in powers.iter() {
        assert_eq!(*p, fe(cur));
        cur *= root;
    }
}

#[test]
fn expand_primitive_roots_of_power_of_two_widths() {
    for k in 1..7u32 {
        check_expansion(1u64 << k);
    }
}

#[test]
fn expand_identity_root_is_invalid_scale() {
    assert_eq!(expand_root_of_unity(&FieldElement::one(), 4), Err(DomainError::InvalidScale));
    assert_eq!(expand_root_of_unity(&FieldElement::one(), 0), Err(DomainError::InvalidScale));
}

#[test]
fn expand_root_of_larger_order_is_cycle_too_long() {
    let root = fe(Fr::get_root_of_unity(8).unwrap());
    assert_eq!(expand_root_of_unity(&root, 4), Err(DomainError::CycleTooLong));
    assert_eq!(expand_root_of_unity(&fe_u64(2), 8), Err(DomainError::CycleTooLong));
}

#[test]
fn expand_root_of_smaller_order_is_invalid_scale() {
    let root = fe(Fr::get_root_of_unity(4).unwrap());
    assert_eq!(expand_root_of_unity(&root, 8), Err(DomainError::InvalidScale));
}

#[test]
fn fft_settings_tables() {
    let root = fe(Fr::get_root_of_unity(8).unwrap());
    let fs = FFTSettings::new(&root, 8).unwrap();
    assert_eq!(fs.max_width, 8);
    assert_eq!(fs.root_of_unity, root);
    assert_eq!(fs.expanded_roots_of_unity.len(), 9);
    let mut rev = fs.expanded_roots_of_unity.clone();
    rev.reverse();
    assert_eq!(fs.reverse_roots_of_unity, rev);
    assert_eq!(fs.roots_of_unity[..], fs.expanded_roots_of_unity[..8]);
    assert!(FFTSettings::new(&root, 4).is_err());
}

#[test]
fn field_operations() {
    assert_eq!(fe_u64(3).mul(&fe_u64(5)), fe_u64(15));
    let minus_one = fe(-Fr::one());
    assert_eq!(minus_one.mul(&minus_one), FieldElement::one());
    assert!(FieldElement::one().is_one());
    assert!(!fe_u64(2).is_one());
    let mut bytes = [0u8; 32];
    bytes[30] = 1;
    bytes[31] = 2;
    assert_eq!(FieldElement::from_be_bytes_mod_order(&bytes), fe_u64(258));
    assert_eq!(FieldElement::zero(), fe(Fr::zero()));
}

#[test]
fn eval_poly_constant_and_empty() {
    for x in [0u64, 1, 7, 123456789] {
        let c = fe_u64(42);
        assert_eq!(eval_poly(&PolyData { coeffs: vec![c] }, &fe_u64(x)), c);
        assert_eq!(eval_poly(&PolyData { coeffs: vec![] }, &fe_u64(x)), FieldElement::zero());
    }
}

#[test]
fn eval_poly_quadratic() {
    let p = PolyData { coeffs: vec![fe_u64(1), fe_u64(2), fe_u64(3)] };
    assert_eq!(eval_poly(&p, &fe_u64(5)), fe_u64(86));
    let q = PolyData { coeffs: vec![fe(-Fr::one()), fe_u64(0), fe_u64(1)] };
    assert_eq!(eval_poly(&q, &fe_u64(1)), FieldElement::zero());
}

#[test]
fn trusted_setup_is_deterministic_and_starts_at_generators() {
    let seed = [7u8; 32];
    let (a1, a2) = generate_trusted_setup(5, seed);
    let (b1, b2) = generate_trusted_setup(5, seed);
    assert_eq!(a1, b1);
    assert_eq!(a2, b2);
    assert_eq!(a1.len(), 5);
    assert_eq!(a2.len(), 5);
    assert_eq!(a1[0], g1(G1Projective::generator()));
    assert_eq!(a2[0], g2(G2Projective::generator()));
    let s = Fr::from_be_bytes_mod_order(&seed);
    assert_eq!(a1[1], g1(G1Projective::generator() * s));
    assert_eq!(a2[3], g2(G2Projective::generator() * (s * s * s)));
}

#[test]
fn trusted_setup_of_length_zero_is_empty() {
    let (s1, s2) = generate_trusted_setup(0, [9u8; 32]);
    assert!(s1.is_empty());
    assert!(s2.is_empty());
}

#[test]
fn pairings_verify_same_equation() {
    let a = g1(G1Projective::generator() * Fr::from(7u64));
    let b = g2(G2Projective::generator() * Fr::from(11u64));
    assert!(pairings_verify(&a, &b, &a, &b));
}

#[test]
fn pairings_verify_bilinear() {
    let a1 = g1(G1Projective::generator() * Fr::from(6u64));
    let a2 = g2(G2Projective::generator());
    let b1 = g1(G1Projective::generator() * Fr::from(2u64));
    let b2 = g2(G2Projective::generator() * Fr::from(3u64));
    assert!(pairings_verify(&a1, &a2, &b1, &b2));
}

#[test]
fn pairings_verify_shifted_point_fails() {
    let s = G1Projective::generator() * Fr::from(7u64);
    let b = g2(G2Projective::generator() * Fr::from(11u64));
    let a = g1(s);
    let shifted = g1(s + G1Projective::generator());
    assert!(!pairings_verify(&shifted, &b, &a, &b));
}

#[test]
fn settings_start_without_precomputation() {
    let root = fe(Fr::get_root_of_unity(4).unwrap());
    let fs = FFTSettings::new(&root, 4).unwrap();
    let (s1, s2) = generate_trusted_setup(4, [1u8; 32]);
    let ks = KZGSettings::new(fs, s1.clone(), s2.clone());
    assert_eq!(ks.secret_g1, s1);
    assert_eq!(ks.secret_g2, s2);
    assert_eq!(ks.fs.expanded_roots_of_unity.len(), 5);
    assert!(ks.precomputation.is_none());
}

#[test]
fn pairings_verify_rejects_off_curve_points() {
    let a = g1(G1Projective::generator() * Fr::from(7u64));
    let b = g2(G2Projective::generator() * Fr::from(11u64));
    let off = G1Point { x: [0; 6], y: [0; 6], infinity: false };
    assert!(!pairings_verify(&off, &b, &off, &b));
    assert!(!pairings_verify(&a, &b, &off, &b));
    let off2 = G2Point { x_c0: [0; 6], x_c1: [0; 6], y_c0: [0; 6], y_c1: [0; 6], infinity: false };
    assert!(!pairings_verify(&a, &off2, &a, &off2));
}

#[test]
fn pairings_verify_rejects_points_outside_subgroup() {
    // (0, 2) satisfies y^2 = x^3 + 4 but has order three.
    let p = G1Point { x: [0; 6], y: [2, 0, 0, 0, 0, 0], infinity: false };
    let b = g2(G2Projective::generator());
    assert!(!pairings_verify(&p, &b, &p, &b));
}

#[test]
fn trusted_setup_points_verify_against_each_other() {
    let (s1, s2) = generate_trusted_setup(3, [5u8; 32]);
    // e(s * G1, G2) == e(G1, s * G2)
    assert!(pairings_verify(&s1[1], &s2[0], &s1[0], &s2[1]));
    assert!(!pairings_verify(&s1[1], &s2[0], &s1[0], &s2[2]));
}
