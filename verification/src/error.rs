//! Error taxonomy for solving and verification.

use vstd::prelude::*;

verus! {

/// Failure of strict proof or bundle verification.
#[derive(Debug, Clone, Copy, PartialEq, Eq, Structural)]
pub enum VerifyError {
    /// Two proofs in a bundle share an id.
    DuplicateProof,
    /// A difficulty hash does not meet the required bits, or the bundle
    /// has the wrong number of proofs.
    InvalidDifficulty,
    /// A challenge does not match its id, ids decrease, or Equi-X
    /// rejects a solution.
    Malformed,
}

impl VerifyError {
    /// Short description of the failure.
    pub fn message(&self) -> (r: &'static str) {
        match self {
            VerifyError::DuplicateProof => "duplicate proof",
            VerifyError::InvalidDifficulty => "proof does not meet difficulty",
            VerifyError::Malformed => "malformed proof or bundle",
        }
    }
}

/// Engine-level failure.
#[derive(Debug, Clone, PartialEq, Eq)]
pub enum Error {
    /// An out-of-range parameter at construction or reconfiguration.
    InvalidConfig(String),
    /// An underlying primitive or insertion violated an invariant.
    SolverFailed(String),
    /// The search ended before the target number of proofs was met.
    ChannelClosed,
}

impl Error {
    /// Short description of the failure.
    pub fn message(&self) -> (r: String) {
        match self {
            Error::InvalidConfig(s) => s.clone(),
            Error::SolverFailed(s) => s.clone(),
            Error::ChannelClosed => "solver channel closed".to_owned(),
        }
    }
}

} // verus!
