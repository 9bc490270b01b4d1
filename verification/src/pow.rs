//! Generic proof-of-work interfaces.

use crate::error::{Error, VerifyError};
use vstd::prelude::*;

verus! {

/// Configuration for a proof-of-work algorithm.
///
/// Implementations typically at least expose a difficulty parameter.
pub trait PowConfig: Clone {
    /// The abstract difficulty of this configuration. Equi-X backends
    /// read it as the required number of leading zero bits in the
    /// difficulty hash.
    fn difficulty(&self) -> u32;
}

/// A single proof-of-work solution.
pub trait PowProof {
    /// The logical identifier of this proof within the search space.
    fn id(&self) -> u64;
}

/// A bundle of proofs produced for a single master challenge.
pub trait PowBundle {
    /// The proof type contained in this bundle.
    type Proof: PowProof;

    /// The configuration type associated with this bundle.
    type Config: PowConfig;

    /// The proofs in this bundle.
    fn proofs(&self) -> &[Self::Proof];

    /// The configuration of this bundle.
    fn config(&self) -> &Self::Config;

    /// The master challenge binding this bundle.
    fn master_challenge(&self) -> &[u8; 32];

    /// Insert a new proof, enforcing uniqueness and ordering.
    fn insert_proof(&mut self, proof: Self::Proof) -> Result<(), VerifyError>;

    /// Strictly verify the bundle against its own configuration.
    fn verify_strict(&self) -> Result<(), VerifyError>;
}

/// A proof-of-work engine capable of solving and resuming bundles.
pub trait PowEngine {
    /// The bundle type produced by this engine.
    type Bundle: PowBundle;

    /// Solve a new bundle for the given master challenge.
    fn solve_bundle(&mut self, master_challenge: [u8; 32]) -> Result<Self::Bundle, Error>;

    /// Resume solving an existing bundle up to the engine's configured
    /// target.
    fn resume(&mut self, existing: Self::Bundle) -> Result<Self::Bundle, Error>;
}

} // verus!
