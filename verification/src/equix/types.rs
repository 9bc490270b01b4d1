//! Seed-based Equi-X proof types.

use vstd::prelude::*;

verus! {

/// A 16-byte Equi-X solution, wrapped for type safety.
#[derive(Clone, Copy, Debug, PartialEq, Eq, Hash)]
pub struct EquixSolution(pub [u8; 16]);

/// A single Equi-X proof: the work nonce searched plus the solution
/// bytes for the challenge it selects.
#[derive(Clone, Copy, Debug, PartialEq, Eq, Hash)]
pub struct EquixProof {
    pub work_nonce: u64,
    /// Concrete Equi-X solution bytes; verification checks them against
    /// the challenge derived from the seed and the work nonce.
    pub solution: EquixSolution,
}

/// A solved Equi-X hit together with its difficulty hash.
#[derive(Clone, Copy, Debug, PartialEq, Eq, Hash)]
pub struct EquixHit {
    pub proof: EquixProof,
    pub hash: [u8; 32],
}

} // verus!
