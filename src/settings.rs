use crate::curve::{G1Point, G2Point};
use crate::domain::FFTSettings;
use std::sync::Arc;
use vstd::prelude::*;

verus! {

/// Multiples of points prepared ahead of time to speed up multi-scalar
/// multiplication in G1.
#[derive(Clone, Debug)]
pub struct PrecomputationTable {
    pub table: Vec<G1Point>,
}

/// A domain and a structured reference string, with an optional shared
/// precomputation built from them.
#[derive(Clone, Debug)]
pub struct KZGSettings {
    pub fs: FFTSettings,
    pub secret_g1: Vec<G1Point>,
    pub secret_g2: Vec<G2Point>,
    pub precomputation: Option<Arc<PrecomputationTable>>,
}

impl KZGSettings {
    /// Settings over the given domain and reference string, without a
    /// precomputation.
    pub fn new(fs: FFTSettings, secret_g1: Vec<G1Point>, secret_g2: Vec<G2Point>) -> (r: KZGSettings)
        ensures
            r.fs == fs,
            r.secret_g1@ == secret_g1@,
            r.secret_g2@ == secret_g2@,
            r.precomputation is None,
    {
        KZGSettings { fs, secret_g1, secret_g2, precomputation: None }
    }
}

} // verus!
