//! Policy, submission and parameter types of the near-stateless
//! protocol.

use crate::error::Error;
use crate::types::ProofBundle;
use vstd::prelude::*;

verus! {

/// A span of time as whole seconds plus a sub-second remainder in
/// nanoseconds. The policy validator demands at least one second and an
/// integral number of seconds.
#[derive(Debug, Clone, Copy, PartialEq, Eq, Structural)]
pub struct TimeWindow {
    pub secs: u64,
    pub nanos: u32,
}

impl TimeWindow {
    /// A window of whole seconds.
    pub fn from_secs(secs: u64) -> (r: Self)
        ensures
            r.secs == secs,
            r.nanos == 0,
    {
        TimeWindow { secs, nanos: 0 }
    }

    /// A window given in milliseconds.
    pub fn from_millis(millis: u64) -> (r: Self)
        ensures
            r.secs == millis / 1000,
            r.nanos == (millis % 1000) * 1_000_000,
    {
        TimeWindow { secs: millis / 1000, nanos: ((millis % 1000) as u32) * 1_000_000 }
    }

    /// The whole-second part of the window.
    pub fn as_secs(&self) -> (r: u64)
        ensures
            r == self.secs,
    {
        self.secs
    }

    /// The sub-second part of the window, in nanoseconds.
    pub fn subsec_nanos(&self) -> (r: u32)
        ensures
            r == self.nanos,
    {
        self.nanos
    }
}

/// Server policy used by the near-stateless verifier.
#[derive(Debug, Clone, Copy, PartialEq, Eq, Structural)]
pub struct VerifierConfig {
    /// How long a submission timestamp stays acceptable.
    pub time_window: TimeWindow,
    /// Least difficulty a bundle must meet.
    pub min_difficulty: u32,
    /// Least number of proofs a bundle must hold.
    pub min_required_proofs: usize,
}

/// A valid policy: a window of at least one whole second with no
/// sub-second part, and difficulty and proof count of at least one.
pub open spec fn spec_config_valid(c: VerifierConfig) -> bool {
    &&& c.time_window.secs >= 1
    &&& c.time_window.nanos == 0
    &&& c.min_difficulty >= 1
    &&& c.min_required_proofs >= 1
}

impl Default for VerifierConfig {
    /// The least acceptable policy: a one-second window, difficulty
    /// one, one proof.
    fn default() -> (r: Self)
        ensures
            r.time_window == (TimeWindow { secs: 1, nanos: 0 }),
            r.min_difficulty == 1,
            r.min_required_proofs == 1,
            spec_config_valid(r),
    {
        VerifierConfig {
            time_window: TimeWindow { secs: 1, nanos: 0 },
            min_difficulty: 1,
            min_required_proofs: 1,
        }
    }
}

impl VerifierConfig {
    /// Reject an out-of-range policy: a window under one second or
    /// with a sub-second part, difficulty zero, or proof count zero.
    pub fn validate(&self) -> (r: Result<(), Error>)
        ensures
            r is Ok <==> spec_config_valid(*self),
            r is Err ==> r matches Err(Error::InvalidConfig(_)),
    {
        if self.time_window.secs < 1 {
            return Err(Error::InvalidConfig("time_window must be at least 1 second".to_owned()));
        }
        if self.time_window.nanos != 0 {
            return Err(
                Error::InvalidConfig("time_window must be a whole number of seconds".to_owned()),
            );
        }
        if self.min_difficulty == 0 {
            return Err(Error::InvalidConfig("min_difficulty must be >= 1".to_owned()));
        }
        if self.min_required_proofs == 0 {
            return Err(Error::InvalidConfig("min_required_proofs must be >= 1".to_owned()));
        }
        Ok(())
    }
}

/// Payload submitted by a client for verification.
#[derive(Debug, Clone)]
pub struct Submission {
    pub timestamp: u64,
    pub client_nonce: [u8; 32],
    pub proof_bundle: ProofBundle,
}

/// Parameters a server issues to clients for solving.
#[derive(Debug, Clone)]
pub struct SolveParams {
    pub timestamp: u64,
    pub deterministic_nonce: [u8; 32],
    pub config: VerifierConfig,
}

/// Failure while packaging a submission.
#[derive(Debug, Clone)]
pub enum SubmissionBuilderError {
    /// The engine's configuration was rejected or solving failed.
    InvalidConfig(String),
}

impl SubmissionBuilderError {
    /// Short description of the failure.
    pub fn message(&self) -> (r: String) {
        match self {
            SubmissionBuilderError::InvalidConfig(s) => s.clone(),
        }
    }
}

} // verus!
