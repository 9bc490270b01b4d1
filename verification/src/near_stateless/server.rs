//! Server-side verification of near-stateless submissions.
//!
//! The server keeps only a secret, a policy, and a replay cache. Checks
//! run cheapest first: timestamps, then master-challenge binding, then
//! strict bundle verification; the replay cache is touched last, so a
//! rejected submission never burns cache capacity.

use crate::error::{Error, VerifyError};
use crate::near_stateless::cache::{
    cache_contains, cache_has_live, MemoryReplayCache, ReplayCache, ReplayCacheError,
};
use crate::near_stateless::client::{derive_master_challenge, spec_master_challenge};
use crate::near_stateless::prf::DeterministicNonceProvider;
use crate::near_stateless::time::TimeProvider;
use crate::near_stateless::types::{spec_config_valid, SolveParams, Submission, VerifierConfig};
use crate::types::{bytes32_eq, spec_verify_strict};
use vstd::prelude::*;

verus! {

/// Why a submission was rejected.
#[derive(Debug, Clone)]
pub enum NsError {
    /// The timestamp fell out of the acceptance window.
    StaleTimestamp,
    /// The timestamp lies in the future.
    FutureTimestamp,
    /// The client nonce was already seen within the window.
    Replay,
    /// The bundle is not bound to the recomputed master challenge.
    MasterChallengeMismatch,
    /// Strict bundle verification failed.
    Verify(VerifyError),
    /// An out-of-range policy.
    InvalidConfig(String),
    /// The replay cache failed.
    Cache(ReplayCacheError),
}

/// The expiry recorded for an accepted submission: its timestamp plus
/// the window, saturating.
pub open spec fn spec_expiry(ts: u64, window_secs: u64) -> u64 {
    if ts + window_secs > u64::MAX {
        u64::MAX
    } else {
        (ts + window_secs) as u64
    }
}

/// The stateless part of submission verification, given the clock
/// reading and the recomputed deterministic nonce: timestamp window,
/// master-challenge binding, then strict bundle verification, first
/// failure reported. Success carries the replay-cache expiry.
pub open spec fn spec_check_submission(
    cfg: VerifierConfig,
    now: u64,
    deterministic_nonce: [u8; 32],
    sub: Submission,
) -> Result<u64, NsError> {
    if sub.timestamp > now {
        Err(NsError::FutureTimestamp)
    } else if now - sub.timestamp >= cfg.time_window.secs {
        Err(NsError::StaleTimestamp)
    } else if sub.proof_bundle.master_challenge != spec_master_challenge(
        deterministic_nonce@,
        sub.client_nonce@,
    ) {
        Err(NsError::MasterChallengeMismatch)
    } else {
        match spec_verify_strict(
            sub.proof_bundle,
            cfg.min_difficulty,
            cfg.min_required_proofs as int,
        ) {
            Err(e) => Err(NsError::Verify(e)),
            Ok(()) => Ok(spec_expiry(sub.timestamp, cfg.time_window.secs)),
        }
    }
}

/// Verify the stateless checks of a submission under a policy, for a
/// given clock reading and deterministic nonce. Returns the expiry to
/// record in the replay cache.
pub fn verify_submission_at(
    cfg: &VerifierConfig,
    now: u64,
    deterministic_nonce: [u8; 32],
    submission: &Submission,
) -> (r: Result<u64, NsError>)
    ensures
        r == spec_check_submission(*cfg, now, deterministic_nonce, *submission),
{
    let ts = submission.timestamp;
    if ts > now {
        return Err(NsError::FutureTimestamp);
    }
    let age = now - ts;
    let window_secs = cfg.time_window.as_secs();
    if age >= window_secs {
        return Err(NsError::StaleTimestamp);
    }
    let expected_master = derive_master_challenge(deterministic_nonce, submission.client_nonce);
    if !bytes32_eq(&submission.proof_bundle.master_challenge, &expected_master) {
        return Err(NsError::MasterChallengeMismatch);
    }
    let n = cfg.min_required_proofs;
    match submission.proof_bundle.verify_strict(cfg.min_difficulty, n) {
        Err(e) => Err(NsError::Verify(e)),
        Ok(()) => {
            if u64::MAX - window_secs < ts {
                Ok(u64::MAX)
            } else {
                Ok(ts + window_secs)
            }
        },
    }
}

/// Server-side verifier for near-stateless proof-of-work submissions.
pub struct NearStatelessVerifier<P: DeterministicNonceProvider, C: ReplayCache, T: TimeProvider> {
    pub config: VerifierConfig,
    pub nonce_provider: P,
    pub replay_cache: C,
    pub time_provider: T,
}

impl<P: DeterministicNonceProvider, C: ReplayCache, T: TimeProvider> NearStatelessVerifier<
    P,
    C,
    T,
> {
    /// Construct a verifier under a validated policy.
    pub fn new(config: VerifierConfig, nonce_provider: P, replay_cache: C, time_provider: T) -> (r:
        Result<Self, Error>)
        ensures
            r is Ok <==> spec_config_valid(config),
            r matches Ok(v) ==> v.config == config,
            r is Err ==> r matches Err(Error::InvalidConfig(_)),
    {
        match config.validate() {
            Ok(()) => {},
            Err(e) => {
                return Err(e);
            },
        }
        Ok(NearStatelessVerifier { config, nonce_provider, replay_cache, time_provider })
    }

    /// The policy currently in force.
    pub fn config(&self) -> (r: VerifierConfig)
        ensures
            r == self.config,
    {
        self.config
    }

    /// Replace the policy at run time, rejecting an invalid one.
    pub fn set_config(&mut self, new_config: VerifierConfig) -> (r: Result<(), Error>)
        ensures
            r is Ok <==> spec_config_valid(new_config),
            r is Ok ==> final(self).config == new_config,
            r is Err ==> (r matches Err(Error::InvalidConfig(_))) && final(self).config == old(
                self,
            ).config,
    {
        match new_config.validate() {
            Ok(()) => {},
            Err(e) => {
                return Err(e);
            },
        }
        self.config = new_config;
        Ok(())
    }

    /// Issue solving parameters: the current time, the deterministic
    /// nonce recomputable from `(secret, timestamp)`, and the policy.
    /// The server stores nothing for this step.
    pub fn issue_params(&mut self, server_secret: [u8; 32]) -> (r: SolveParams)
        ensures
            r.config == old(self).config,
            final(self).config == old(self).config,
    {
        let timestamp = self.time_provider.now_seconds();
        let deterministic_nonce = self.nonce_provider.derive(server_secret, timestamp);
        SolveParams { timestamp, deterministic_nonce, config: self.config }
    }

    /// Verify a submission against the current policy: clock and nonce
    /// come from the injected providers, then the stateless checks run,
    /// and only an accepted submission touches the replay cache, which
    /// rejects a nonce already live in the window.
    pub fn verify_submission(&mut self, server_secret: [u8; 32], submission: &Submission) -> (r:
        Result<(), NsError>)
        ensures
            final(self).config == old(self).config,
            (r is Ok || r matches Err(NsError::Replay) || r matches Err(NsError::Cache(_)))
                ==> spec_verify_strict(
                submission.proof_bundle,
                old(self).config.min_difficulty,
                old(self).config.min_required_proofs as int,
            ) is Ok,
    {
        let now = self.time_provider.now_seconds();
        let deterministic_nonce = self.nonce_provider.derive(server_secret, submission.timestamp);
        let expires_at = match verify_submission_at(
            &self.config,
            now,
            deterministic_nonce,
            submission,
        ) {
            Ok(e) => e,
            Err(e) => {
                return Err(e);
            },
        };
        let inserted = match self.replay_cache.insert_if_absent(
            submission.client_nonce,
            expires_at,
            now,
        ) {
            Ok(b) => b,
            Err(e) => {
                return Err(NsError::Cache(e));
            },
        };
        if !inserted {
            return Err(NsError::Replay);
        }
        Ok(())
    }
}

/// Law: a timestamp exactly at the window edge is stale — when
/// `now - ts` equals the window, verification rejects with
/// `StaleTimestamp`.
pub proof fn lemma_window_edge_is_stale(
    cfg: VerifierConfig,
    now: u64,
    deterministic_nonce: [u8; 32],
    sub: Submission,
)
    requires
        sub.timestamp <= now,
        now - sub.timestamp == cfg.time_window.secs,
    ensures
        spec_check_submission(cfg, now, deterministic_nonce, sub) == Err::<u64, NsError>(
            NsError::StaleTimestamp,
        ),
{
}

/// Law: master binding — a submission inside the time window whose
/// bundle is not bound to the master challenge recomputed from the
/// deterministic and client nonces is rejected as a mismatch. Flipping
/// a bit of the stored master challenge therefore rejects; flipping a
/// bit of either nonce rejects whenever it changes the recomputed
/// digest, which only a BLAKE3 collision could fail to do.
pub proof fn lemma_master_binding(
    cfg: VerifierConfig,
    now: u64,
    deterministic_nonce: [u8; 32],
    sub: Submission,
)
    requires
        sub.timestamp <= now,
        now - sub.timestamp < cfg.time_window.secs,
        sub.proof_bundle.master_challenge != spec_master_challenge(
            deterministic_nonce@,
            sub.client_nonce@,
        ),
    ensures
        spec_check_submission(cfg, now, deterministic_nonce, sub) == Err::<u64, NsError>(
            NsError::MasterChallengeMismatch,
        ),
{
}

/// Law: verifier idempotence — when the stateless checks accept a
/// submission and its nonce is not yet live, the replay cache records
/// the expiry the checks computed, and the same submission verified a
/// second time at the same clock reading finds the nonce live, so it is
/// rejected as a replay. (The expiry arithmetic must not saturate:
/// with `timestamp` and window both at `u64::MAX` the recorded expiry
/// cannot exceed `now`.)
pub proof fn lemma_verifier_idempotent(
    cfg: VerifierConfig,
    now: u64,
    deterministic_nonce: [u8; 32],
    sub: Submission,
    first: MemoryReplayCache,
    second: MemoryReplayCache,
    expires_at: u64,
)
    requires
        spec_check_submission(cfg, now, deterministic_nonce, sub) == Ok::<u64, NsError>(expires_at),
        sub.timestamp + cfg.time_window.secs <= u64::MAX,
        !cache_has_live(first.entries@, sub.client_nonce, now),
        cache_contains(second.entries@, sub.client_nonce, expires_at),
    ensures
        expires_at > now,
        cache_has_live(second.entries@, sub.client_nonce, now),
{
    assert(expires_at == sub.timestamp + cfg.time_window.secs);
    let i = choose|i: int|
        0 <= i < second.entries@.len() && second.entries@[i] == (sub.client_nonce, expires_at);
    assert(second.entries@[i].0 == sub.client_nonce && second.entries@[i].1 > now);
}

} // verus!
