use crate::curve::{
    g1_generator_mul, g1_generator_times, g1_valid, g2_generator_mul, g2_generator_times, g2_valid,
    G1Point, G2Point,
};
use crate::field::{be_value, modulus, pow_mod, FieldElement};
use vstd::prelude::*;

verus! {

/// The secret scalar that a 32-byte seed stands for.
pub open spec fn secret_scalar(secret: Seq<u8>) -> nat {
    be_value(secret) % modulus()
}

/// The G1 half of a reference string of `len` points for the secret `s`:
/// the generator times `s^i` at index `i`.
pub open spec fn setup_g1(len: nat, s: nat) -> Seq<G1Point> {
    Seq::new(len, |i: int| g1_generator_times(pow_mod(s, i as nat)))
}

/// The G2 half of a reference string of `len` points for the secret `s`.
pub open spec fn setup_g2(len: nat, s: nat) -> Seq<G2Point> {
    Seq::new(len, |i: int| g2_generator_times(pow_mod(s, i as nat)))
}

/// The structured reference string of `len` points in each group for the
/// secret scalar derived from `secret`.
pub fn generate_trusted_setup(len: usize, secret: [u8; 32]) -> (r: (Vec<G1Point>, Vec<G2Point>))
    ensures
        r.0@ == setup_g1(len as nat, secret_scalar(secret@)),
        r.1@ == setup_g2(len as nat, secret_scalar(secret@)),
        forall|i: int| 0 <= i < len ==> (#[trigger] r.0@[i]).wf() && g1_valid(r.0@[i]),
        forall|i: int| 0 <= i < len ==> (#[trigger] r.1@[i]).wf() && g2_valid(r.1@[i]),
{
    let s = FieldElement::from_be_bytes_mod_order(&secret);
    let ghost sv = secret_scalar(secret@);
    let mut s_pow = FieldElement::one();
    let mut s1: Vec<G1Point> = Vec::with_capacity(len);
    let mut s2: Vec<G2Point> = Vec::with_capacity(len);
    for i in 0..len
        invariant
            s.wf(),
            s.value() == sv,
            s_pow.wf(),
            s_pow.value() == pow_mod(sv, i as nat),
            s1@ == setup_g1(i as nat, sv),
            s2@ == setup_g2(i as nat, sv),
            forall|k: int| 0 <= k < i ==> (#[trigger] s1@[k]).wf() && g1_valid(s1@[k]),
            forall|k: int| 0 <= k < i ==> (#[trigger] s2@[k]).wf() && g2_valid(s2@[k]),
    {
        s1.push(g1_generator_mul(&s_pow));
        s2.push(g2_generator_mul(&s_pow));
        assert(s1@ =~= setup_g1((i + 1) as nat, sv));
        assert(s2@ =~= setup_g2((i + 1) as nat, sv));
        s_pow = s_pow.mul(&s);
        assert(pow_mod(sv, (i + 1) as nat) == (pow_mod(sv, i as nat) * sv) % modulus());
    }
    (s1, s2)
}

/// A reference string of no points is empty in both groups, and one of at
/// least one point starts with the generators themselves (the secret to the
/// power zero).
pub proof fn lemma_setup_shape(len: nat, s: nat)
    ensures
        setup_g1(0, s).len() == 0,
        setup_g2(0, s).len() == 0,
        setup_g1(len, s).len() == len,
        setup_g2(len, s).len() == len,
        len >= 1 ==> setup_g1(len, s)[0] == g1_generator_times(1),
        len >= 1 ==> setup_g2(len, s)[0] == g2_generator_times(1),
{
    assert(pow_mod(s, 0) == 1);
}

/// The reference string depends on the length and the seed alone: equal
/// seeds give equal points in both groups.
pub proof fn lemma_setup_deterministic(len: nat, a: Seq<u8>, b: Seq<u8>)
    requires
        a == b,
    ensures
        setup_g1(len, secret_scalar(a)) == setup_g1(len, secret_scalar(b)),
        setup_g2(len, secret_scalar(a)) == setup_g2(len, secret_scalar(b)),
{
}

} // verus!
