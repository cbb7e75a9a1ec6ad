use crate::field::{modulus, FieldElement};
use ark_bls12_381::Fr;
use ark_ff::{BigInt, PrimeField};
use ark_poly::univariate::DensePolynomial;
use ark_poly::{DenseUVPolynomial, Polynomial};
use vstd::prelude::*;

verus! {

/// A dense polynomial: the coefficient at index `i` belongs to `x^i`.
#[derive(Clone, Debug)]
pub struct PolyData {
    pub coeffs: Vec<FieldElement>,
}

/// Every coefficient is a canonical field element.
pub open spec fn coeffs_wf(cs: Seq<FieldElement>) -> bool {
    forall|i: int| 0 <= i < cs.len() ==> (#[trigger] cs[i]).wf()
}

/// The value at `x` of the polynomial with coefficients `cs`, in the scalar
/// field (Horner's rule).
pub open spec fn poly_value(cs: Seq<FieldElement>, x: nat) -> nat
    decreases cs.len(),
{
    if cs.len() == 0 {
        0
    } else {
        (cs[0].value() + x * poly_value(cs.drop_first(), x)) % modulus()
    }
}

/// The value of the polynomial `p` at `x`.
pub fn eval_poly(p: &PolyData, x: &FieldElement) -> (r: FieldElement)
    requires
        coeffs_wf(p.coeffs@),
        x.wf(),
    ensures
        r.wf(),
        r.value() == poly_value(p.coeffs@, x.value()),
{
    dense_evaluate(&p.coeffs, x)
}

/// A constant polynomial takes its coefficient everywhere, and the polynomial
/// without coefficients is zero everywhere.
pub proof fn lemma_eval_constant_and_empty(c: FieldElement, x: FieldElement)
    requires
        c.wf(),
    ensures
        poly_value(seq![c], x.value()) == c.value(),
        poly_value(Seq::<FieldElement>::empty(), x.value()) == 0,
{
    let s = seq![c];
    assert(s.drop_first() =~= Seq::<FieldElement>::empty());
    assert(poly_value(s.drop_first(), x.value()) == 0);
    assert(x.value() * 0 == 0);
    vstd::arithmetic::div_mod::lemma_small_mod(c.value(), modulus());
}

/// Relies on `DensePolynomial::from_coefficients_vec` and
/// `Polynomial::evaluate` of ark-poly over `ark_bls12_381::Fr`: the value of
/// the polynomial at the point, zero for no coefficients.
#[verifier::external_body]
fn dense_evaluate(coeffs: &Vec<FieldElement>, x: &FieldElement) -> (r: FieldElement)
    requires
        coeffs_wf(coeffs@),
        x.wf(),
    ensures
        r.wf(),
        r.value() == poly_value(coeffs@, x.value()),
{
    let cs: Vec<Fr> = coeffs.iter().map(|c| Fr::new(BigInt(c.limbs))).collect();
    let v = DensePolynomial::from_coefficients_vec(cs).evaluate(&Fr::new(BigInt(x.limbs)));
    FieldElement { limbs: v.into_bigint().0 }
}

} // verus!
