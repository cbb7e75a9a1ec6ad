use ark_bls12_381::{Bls12_381, Fq, Fq2, Fr, G1Affine, G1Projective, G2Affine, G2Projective};
use ark_ec::pairing::Pairing;
use ark_ec::{CurveGroup, Group};
use ark_ff::{BigInt, One, PrimeField};
use crate::field::FieldElement;
use std::ops::Neg;
use vstd::prelude::*;

verus! {

/// The order of the base field of BLS12-381.
pub open spec fn base_modulus() -> nat {
    0x1a0111ea397fe69a4b1ba7b6434bacd764774b84f38512bf6730d2a0f6b0f6241eabfffeb153ffffb9feffffffffaaabnat
}

/// The integer held by six little-endian 64-bit limbs.
pub open spec fn limbs6_value(l: Seq<u64>) -> nat {
    l[0] as nat + l[1] as nat * 0x1_0000_0000_0000_0000nat
        + l[2] as nat * 0x1_0000_0000_0000_0000_0000_0000_0000_0000nat
        + l[3] as nat * 0x1_0000_0000_0000_0000_0000_0000_0000_0000_0000_0000_0000_0000nat
        + l[4] as nat * 0x1_0000_0000_0000_0000_0000_0000_0000_0000_0000_0000_0000_0000_0000_0000_0000_0000_0000_0000nat
        + l[5] as nat * 0x1_0000_0000_0000_0000_0000_0000_0000_0000_0000_0000_0000_0000_0000_0000_0000_0000_0000_0000_0000_0000_0000_0000_0000_0000nat
}

/// The limbs hold a canonical element of the base field.
pub open spec fn coord_wf(l: [u64; 6]) -> bool {
    limbs6_value(l@) < base_modulus()
}

/// A point of G1 in affine coordinates; `infinity` marks the identity.
#[derive(Clone, Copy, Debug, PartialEq, Eq)]
pub struct G1Point {
    pub x: [u64; 6],
    pub y: [u64; 6],
    pub infinity: bool,
}

/// A point of G2 in affine coordinates over the quadratic extension
/// `c0 + c1 * u`; `infinity` marks the identity.
#[derive(Clone, Copy, Debug, PartialEq, Eq)]
pub struct G2Point {
    pub x_c0: [u64; 6],
    pub x_c1: [u64; 6],
    pub y_c0: [u64; 6],
    pub y_c1: [u64; 6],
    pub infinity: bool,
}

impl G1Point {
    /// Every coordinate is canonical.
    pub open spec fn wf(&self) -> bool {
        coord_wf(self.x) && coord_wf(self.y)
    }
}

impl G2Point {
    /// Every coordinate is canonical.
    pub open spec fn wf(&self) -> bool {
        coord_wf(self.x_c0) && coord_wf(self.x_c1) && coord_wf(self.y_c0) && coord_wf(self.y_c1)
    }
}

/// `n` is the affine negation of `a`: same `x`, `y` negated in the base field.
pub open spec fn is_negation(n: G1Point, a: G1Point) -> bool {
    &&& n.wf()
    &&& n.x == a.x
    &&& n.infinity == a.infinity
    &&& limbs6_value(n.y@) == (base_modulus() - limbs6_value(a.y@)) % (base_modulus() as int)
}

/// `p` satisfies `y^2 = x^3 + 4` over the base field, or is the identity.
pub open spec fn g1_on_curve(p: G1Point) -> bool {
    let q = base_modulus() as int;
    let x = limbs6_value(p.x@) as int;
    let y = limbs6_value(p.y@) as int;
    p.infinity || (y * y) % q == (x * x * x + 4) % q
}

/// `p` satisfies `y^2 = x^3 + 4(1 + u)` over the quadratic extension, where
/// `u^2 = -1`, or is the identity.
pub open spec fn g2_on_curve(p: G2Point) -> bool {
    let q = base_modulus() as int;
    let x0 = limbs6_value(p.x_c0@) as int;
    let x1 = limbs6_value(p.x_c1@) as int;
    let y0 = limbs6_value(p.y_c0@) as int;
    let y1 = limbs6_value(p.y_c1@) as int;
    let (a0, a1) = (x0 * x0 - x1 * x1, 2 * x0 * x1);
    let (c0, c1) = (a0 * x0 - a1 * x1, a0 * x1 + a1 * x0);
    p.infinity || ((y0 * y0 - y1 * y1) % q == (c0 + 4) % q && (2 * y0 * y1) % q == (c1 + 4) % q)
}

/// The G1 generator multiplied by the scalar `s`, in affine form.
pub uninterp spec fn g1_generator_times(s: nat) -> G1Point;

/// The G2 generator multiplied by the scalar `s`, in affine form.
pub uninterp spec fn g2_generator_times(s: nat) -> G2Point;

/// Whether `e(p1, q1) * e(p2, q2)` is the identity of the target group.
pub uninterp spec fn pairing_product_is_one(p1: G1Point, q1: G2Point, p2: G1Point, q2: G2Point) -> bool;

/// What ark-ec's subgroup check for G1 says of a point on the curve.
pub uninterp spec fn g1_subgroup_check(p: G1Point) -> bool;

/// What ark-ec's subgroup check for G2 says of a point on the curve.
pub uninterp spec fn g2_subgroup_check(p: G2Point) -> bool;

/// `p` lies on the curve and passes the subgroup check.
pub open spec fn g1_valid(p: G1Point) -> bool {
    g1_on_curve(p) && g1_subgroup_check(p)
}

/// `p` lies on the twisted curve and passes the subgroup check.
pub open spec fn g2_valid(p: G2Point) -> bool {
    g2_on_curve(p) && g2_subgroup_check(p)
}

/// Whether `e(a1, a2) == e(b1, b2)`, checked as `e(-a1, a2) * e(b1, b2) == 1`
/// with one multi-pairing. A point off its curve or outside the prime-order
/// subgroup makes the answer `false`.
pub fn pairings_verify(a1: &G1Point, a2: &G2Point, b1: &G1Point, b2: &G2Point) -> (r: bool)
    requires
        a1.wf(),
        a2.wf(),
        b1.wf(),
        b2.wf(),
    ensures
        exists|n: G1Point|
            is_negation(n, *a1) && r == (g1_valid(n) && g2_valid(*a2) && g1_valid(*b1) && g2_valid(*b2)
                && pairing_product_is_one(n, *a2, *b1, *b2)),
{
    let a1_neg = g1_neg(a1);
    let g1_ok = g1_checked(&a1_neg) && g1_checked(b1);
    let g2_ok = g2_checked(a2) && g2_checked(b2);
    if !(g1_ok && g2_ok) {
        return false;
    }
    multi_pairing_is_one(&a1_neg, a2, b1, b2)
}

/// Whether a point of G1 lies on the curve and in the prime-order subgroup.
fn g1_checked(p: &G1Point) -> (r: bool)
    requires
        p.wf(),
    ensures
        r == g1_valid(*p),
{
    g1_is_on_curve(p) && g1_in_subgroup(p)
}

/// Whether a point of G2 lies on the twisted curve and in the prime-order
/// subgroup.
fn g2_checked(p: &G2Point) -> (r: bool)
    requires
        p.wf(),
    ensures
        r == g2_valid(*p),
{
    g2_is_on_curve(p) && g2_in_subgroup(p)
}

/// Relies on `Affine::is_on_curve` of ark-ec on BLS12-381's G1, which tests
/// `y^2 == x^3 + 4` unless the point is the identity.
#[verifier::external_body]
fn g1_is_on_curve(p: &G1Point) -> (r: bool)
    requires
        p.wf(),
    ensures
        r == g1_on_curve(*p),
{
    G1Affine { x: Fq::new(BigInt(p.x)), y: Fq::new(BigInt(p.y)), infinity: p.infinity }.is_on_curve()
}

/// Relies on `Affine::is_on_curve` of ark-ec on BLS12-381's G2, which tests
/// `y^2 == x^3 + 4(1 + u)` unless the point is the identity.
#[verifier::external_body]
fn g2_is_on_curve(p: &G2Point) -> (r: bool)
    requires
        p.wf(),
    ensures
        r == g2_on_curve(*p),
{
    let f = |a: [u64; 6]| Fq::new(BigInt(a));
    let x = Fq2::new(f(p.x_c0), f(p.x_c1));
    G2Affine { x, y: Fq2::new(f(p.y_c0), f(p.y_c1)), infinity: p.infinity }.is_on_curve()
}

/// Relies on `Affine::is_in_correct_subgroup_assuming_on_curve` of ark-ec on
/// BLS12-381's G1; its result depends on the point alone.
#[verifier::external_body]
fn g1_in_subgroup(p: &G1Point) -> (r: bool)
    requires
        p.wf(),
        g1_on_curve(*p),
    ensures
        r == g1_subgroup_check(*p),
{
    let a = G1Affine { x: Fq::new(BigInt(p.x)), y: Fq::new(BigInt(p.y)), infinity: p.infinity };
    a.is_in_correct_subgroup_assuming_on_curve()
}

/// Relies on `Affine::is_in_correct_subgroup_assuming_on_curve` of ark-ec on
/// BLS12-381's G2; its result depends on the point alone.
#[verifier::external_body]
fn g2_in_subgroup(p: &G2Point) -> (r: bool)
    requires
        p.wf(),
        g2_on_curve(*p),
    ensures
        r == g2_subgroup_check(*p),
{
    let f = |a: [u64; 6]| Fq::new(BigInt(a));
    let x = Fq2::new(f(p.x_c0), f(p.x_c1));
    let a = G2Affine { x, y: Fq2::new(f(p.y_c0), f(p.y_c1)), infinity: p.infinity };
    a.is_in_correct_subgroup_assuming_on_curve()
}

/// Relies on `Neg` of ark-ec's short Weierstrass `Affine` on BLS12-381's G1,
/// which negates `y` in the base field and keeps `x` and the identity flag.
#[verifier::external_body]
fn g1_neg(a: &G1Point) -> (r: G1Point)
    requires
        a.wf(),
    ensures
        is_negation(r, *a),
{
    let p = G1Affine { x: Fq::new(BigInt(a.x)), y: Fq::new(BigInt(a.y)), infinity: a.infinity }.neg();
    G1Point { x: p.x.into_bigint().0, y: p.y.into_bigint().0, infinity: p.infinity }
}

/// Relies on `Pairing::multi_pairing` for `Bls12_381` and `One::is_one` on its
/// output: whether the product of the two pairings is the identity. Its final
/// exponentiation inverts the Miller loop's value and panics where that is
/// zero, which a point on its curve can bring about when it lies outside the
/// prime-order subgroup; so every point must pass ark-ec's curve and subgroup
/// checks.
#[verifier::external_body]
fn multi_pairing_is_one(p1: &G1Point, q1: &G2Point, p2: &G1Point, q2: &G2Point) -> (r: bool)
    requires
        p1.wf(),
        q1.wf(),
        p2.wf(),
        q2.wf(),
        g1_valid(*p1),
        g2_valid(*q1),
        g1_valid(*p2),
        g2_valid(*q2),
    ensures
        r == pairing_product_is_one(*p1, *q1, *p2, *q2),
{
    let f = |a: [u64; 6]| Fq::new(BigInt(a));
    let g1 = |p: &G1Point| G1Affine { x: f(p.x), y: f(p.y), infinity: p.infinity };
    let g2 = |q: &G2Point| G2Affine {
        x: Fq2::new(f(q.x_c0), f(q.x_c1)),
        y: Fq2::new(f(q.y_c0), f(q.y_c1)),
        infinity: q.infinity,
    };
    Bls12_381::multi_pairing([g1(p1), g1(p2)], [g2(q1), g2(q2)]).0.is_one()
}

/// Relies on `Group::generator`, scalar multiplication and
/// `CurveGroup::into_affine` of ark-ec on BLS12-381's G1. A multiple of the
/// generator lies on the curve and in the prime-order subgroup.
#[verifier::external_body]
pub(crate) fn g1_generator_mul(s: &FieldElement) -> (r: G1Point)
    requires
        s.wf(),
    ensures
        r.wf(),
        g1_valid(r),
        r == g1_generator_times(s.value()),
{
    let p = (G1Projective::generator() * Fr::new(BigInt(s.limbs))).into_affine();
    G1Point { x: p.x.into_bigint().0, y: p.y.into_bigint().0, infinity: p.infinity }
}

/// Relies on `Group::generator`, scalar multiplication and
/// `CurveGroup::into_affine` of ark-ec on BLS12-381's G2. A multiple of the
/// generator lies on the twisted curve and in the prime-order subgroup.
#[verifier::external_body]
pub(crate) fn g2_generator_mul(s: &FieldElement) -> (r: G2Point)
    requires
        s.wf(),
    ensures
        r.wf(),
        g2_valid(r),
        r == g2_generator_times(s.value()),
{
    let p = (G2Projective::generator() * Fr::new(BigInt(s.limbs))).into_affine();
    let c = |v: Fq| v.into_bigint().0;
    G2Point { x_c0: c(p.x.c0), x_c1: c(p.x.c1), y_c0: c(p.y.c0), y_c1: c(p.y.c1), infinity: p.infinity }
}

} // verus!
