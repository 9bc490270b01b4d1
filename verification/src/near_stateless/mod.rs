//! Near-stateless proof-of-work protocol.
//!
//! - Deterministic nonce derivation (keyed BLAKE3) via a pluggable
//!   provider.
//! - A replay-cache abstraction with a verified in-memory
//!   implementation.
//! - A server-side verifier that validates the full submission flow.
//! - Client-side helpers to build master challenges and package
//!   submissions.

pub mod cache;
pub mod client;
pub mod prf;
pub mod server;
pub mod time;
pub mod types;

pub use cache::{MemoryReplayCache, ReplayCache, ReplayCacheError};
pub use client::build_engine_from_params;
pub use client::solve_submission;
pub use client::solve_submission_from_params;
pub use client::{build_submission, derive_master_challenge};
pub use prf::{Blake3NonceProvider, DeterministicNonceProvider};
pub use server::{NearStatelessVerifier, NsError};
pub use time::{SystemTimeProvider, TimeProvider};
pub use types::{SolveParams, Submission, SubmissionBuilderError, TimeWindow, VerifierConfig};
