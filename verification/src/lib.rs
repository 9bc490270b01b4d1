//! Proof-of-work library built on the Equi-X client puzzle.
//!
//! The crate provides a solver engine that produces bundles of Equi-X
//! proofs meeting a leading-zero-bit difficulty, strict bundle
//! verification, and a near-stateless issue/verify protocol in which the
//! server keeps only a secret, a policy, and a replay cache.

pub mod challenge;
pub mod difficulty;
pub mod equix;
pub mod error;
pub mod hashing;
pub mod near_stateless;
pub mod pow;
pub mod stream;
pub mod types;
pub mod verify;
pub mod work;

pub use crate::challenge::derive_challenge;
pub use crate::difficulty::{leading_zero_bits, meets_leading_zero_bits, DifficultyMode};
pub use crate::error::{Error, VerifyError};
pub use crate::equix::engine::{EquixEngine, EquixEngineBuilder};
pub use crate::near_stateless::{
    build_engine_from_params, build_submission, derive_master_challenge, solve_submission,
    solve_submission_from_params, Blake3NonceProvider, DeterministicNonceProvider,
    MemoryReplayCache, NearStatelessVerifier, NsError, ReplayCache, ReplayCacheError, SolveParams,
    Submission, SubmissionBuilderError, SystemTimeProvider, TimeProvider, TimeWindow,
    VerifierConfig,
};
pub use crate::pow::{PowBundle, PowConfig, PowEngine, PowProof};
pub use crate::types::{Proof, ProofBundle, ProofConfig};
