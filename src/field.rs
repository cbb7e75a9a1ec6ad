use ark_bls12_381::Fr;
use ark_ff::{BigInt, One, PrimeField};
use vstd::prelude::*;

verus! {

/// The order of the scalar field of BLS12-381.
pub open spec fn modulus() -> nat {
    0x73eda753299d7d483339d80809a1d80553bda402fffe5bfeffffffff00000001nat
}

/// The integer held by four little-endian 64-bit limbs.
pub open spec fn limbs4_value(l: Seq<u64>) -> nat {
    l[0] as nat + l[1] as nat * 0x1_0000_0000_0000_0000nat
        + l[2] as nat * 0x1_0000_0000_0000_0000_0000_0000_0000_0000nat
        + l[3] as nat * 0x1_0000_0000_0000_0000_0000_0000_0000_0000_0000_0000_0000_0000nat
}

/// `b` raised to the power `e` in the scalar field.
pub open spec fn pow_mod(b: nat, e: nat) -> nat
    decreases e,
{
    if e == 0 {
        1
    } else {
        (pow_mod(b, (e - 1) as nat) * b) % modulus()
    }
}

/// The integer that bytes denote when read in big-endian order.
pub open spec fn be_value(s: Seq<u8>) -> nat
    decreases s.len(),
{
    if s.len() == 0 {
        0
    } else {
        be_value(s.drop_last()) * 256 + s.last() as nat
    }
}

/// An element of the scalar field of BLS12-381, held in canonical form as four
/// little-endian 64-bit limbs.
#[derive(Clone, Copy, Debug, PartialEq, Eq)]
pub struct FieldElement {
    pub limbs: [u64; 4],
}

impl FieldElement {
    /// The integer in `0..modulus()` that the element stands for.
    pub open spec fn value(&self) -> nat {
        limbs4_value(self.limbs@)
    }

    /// The limbs hold an integer below the field's order.
    pub open spec fn wf(&self) -> bool {
        self.value() < modulus()
    }

    /// The multiplicative identity.
    pub fn one() -> (r: FieldElement)
        ensures
            r.wf(),
            r.value() == 1,
    {
        FieldElement { limbs: [1u64, 0u64, 0u64, 0u64] }
    }

    /// The additive identity.
    pub fn zero() -> (r: FieldElement)
        ensures
            r.wf(),
            r.value() == 0,
    {
        FieldElement { limbs: [0u64, 0u64, 0u64, 0u64] }
    }

    /// The product of two elements.
    pub fn mul(&self, other: &FieldElement) -> (r: FieldElement)
        requires
            self.wf(),
            other.wf(),
        ensures
            r.wf(),
            r.value() == (self.value() * other.value()) % modulus(),
    {
        fr_mul(self, other)
    }

    /// Whether the element is the multiplicative identity.
    pub fn is_one(&self) -> (r: bool)
        requires
            self.wf(),
        ensures
            r == (self.value() == 1),
    {
        fr_is_one(self)
    }

    /// The element that 32 bytes denote in big-endian order, reduced modulo the
    /// field's order.
    pub fn from_be_bytes_mod_order(bytes: &[u8; 32]) -> (r: FieldElement)
        ensures
            r.wf(),
            r.value() == be_value(bytes@) % modulus(),
    {
        fr_from_be_bytes(bytes)
    }
}

/// Relies on `Fp::new`, `Mul` and `PrimeField::into_bigint` of ark-ff on
/// `ark_bls12_381::Fr`: the canonical product of two canonical elements.
#[verifier::external_body]
fn fr_mul(a: &FieldElement, b: &FieldElement) -> (r: FieldElement)
    requires
        a.wf(),
        b.wf(),
    ensures
        r.wf(),
        r.value() == (a.value() * b.value()) % modulus(),
{
    let p = Fr::new(BigInt(a.limbs)) * Fr::new(BigInt(b.limbs));
    FieldElement { limbs: p.into_bigint().0 }
}

/// Relies on `One::is_one` of ark-ff on `ark_bls12_381::Fr`: whether the
/// element is the multiplicative identity.
#[verifier::external_body]
fn fr_is_one(a: &FieldElement) -> (r: bool)
    requires
        a.wf(),
    ensures
        r == (a.value() == 1),
{
    Fr::new(BigInt(a.limbs)).is_one()
}

/// Relies on `PrimeField::from_be_bytes_mod_order` of ark-ff on
/// `ark_bls12_381::Fr`: the big-endian integer of the bytes, reduced modulo the
/// field's order.
#[verifier::external_body]
fn fr_from_be_bytes(bytes: &[u8; 32]) -> (r: FieldElement)
    ensures
        r.wf(),
        r.value() == be_value(bytes@) % modulus(),
{
    FieldElement { limbs: Fr::from_be_bytes_mod_order(bytes).into_bigint().0 }
}

} // verus!
