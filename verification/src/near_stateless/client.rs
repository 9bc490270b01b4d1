//! Client-side helpers: master-challenge derivation and submission
//! packaging.

use crate::equix::engine::{spec_engine_valid, spec_solve_from, EquixEngine, EquixEngineBuilder};
use crate::hashing::{blake3_hash32, blake3_of};
use crate::near_stateless::types::{SolveParams, Submission, SubmissionBuilderError};
use crate::types::{bundle_ok, ProofConfig};
use std::sync::atomic::AtomicU64;
use std::sync::Arc;
use vstd::prelude::*;

verus! {

/// Domain tag for master-challenge derivation (the bytes of
/// `rspow:challenge:v1`).
pub open spec fn master_tag() -> Seq<u8> {
    seq![114u8, 115, 112, 111, 119, 58, 99, 104, 97, 108, 108, 101, 110, 103, 101, 58, 118, 49]
}

/// The bytes hashed into the master challenge: the domain tag, the
/// deterministic nonce, then the client nonce.
pub open spec fn spec_master_message(deterministic_nonce: Seq<u8>, client_nonce: Seq<u8>) -> Seq<
    u8,
> {
    master_tag() + deterministic_nonce + client_nonce
}

/// The master challenge binding a bundle to `(det_nonce, client_nonce)`.
pub open spec fn spec_master_challenge(
    deterministic_nonce: Seq<u8>,
    client_nonce: Seq<u8>,
) -> [u8; 32] {
    blake3_of(spec_master_message(deterministic_nonce, client_nonce))
}

/// Derive the master challenge used by the Equi-X engine: BLAKE3 over
/// the domain tag, the server's deterministic nonce, and the client's
/// random nonce.
pub fn derive_master_challenge(deterministic_nonce: [u8; 32], client_nonce: [u8; 32]) -> (r: [u8;
    32])
    ensures
        r == spec_master_challenge(deterministic_nonce@, client_nonce@),
{
    let tag: [u8; 18] = [
        114, 115, 112, 111, 119, 58, 99, 104, 97, 108, 108, 101, 110, 103, 101, 58, 118, 49,
    ];
    let mut msg: Vec<u8> = Vec::new();
    msg.extend_from_slice(tag.as_slice());
    msg.extend_from_slice(deterministic_nonce.as_slice());
    msg.extend_from_slice(client_nonce.as_slice());
    proof {
        assert(tag@ =~= master_tag());
        assert(msg@ =~= spec_master_message(deterministic_nonce@, client_nonce@));
    }
    blake3_hash32(msg.as_slice())
}

/// Package a submission from its parts.
pub fn build_submission(
    timestamp: u64,
    client_nonce: [u8; 32],
    proof_bundle: crate::types::ProofBundle,
) -> (r: Submission)
    ensures
        r.timestamp == timestamp,
        r.client_nonce == client_nonce,
        r.proof_bundle == proof_bundle,
{
    Submission { timestamp, client_nonce, proof_bundle }
}

/// Derive the master challenge, solve with the provided engine, and
/// package the result as a submission.
pub fn solve_submission(
    engine: &mut EquixEngine,
    timestamp: u64,
    deterministic_nonce: [u8; 32],
    client_nonce: [u8; 32],
) -> (r: Result<Submission, SubmissionBuilderError>)
    ensures
        *final(engine) == *old(engine),
        !spec_engine_valid(*old(engine)) ==> r is Err,
        spec_engine_valid(*old(engine)) ==> match spec_solve_from(
            spec_master_challenge(deterministic_nonce@, client_nonce@)@,
            old(engine).bits,
            0,
            old(engine).required_proofs as nat,
        ) {
            Some(s) => {
                &&& r matches Ok(sub)
                &&& sub.timestamp == timestamp
                &&& sub.client_nonce == client_nonce
                &&& sub.proof_bundle.proofs@ == s
                &&& sub.proof_bundle.master_challenge == spec_master_challenge(
                    deterministic_nonce@,
                    client_nonce@,
                )
                &&& sub.proof_bundle.config == (ProofConfig { bits: old(engine).bits })
                &&& bundle_ok(
                    sub.proof_bundle,
                    old(engine).bits,
                    old(engine).required_proofs as int,
                )
            },
            None => r is Err,
        },
{
    let master_challenge = derive_master_challenge(deterministic_nonce, client_nonce);
    let proof_bundle = match engine.solve_bundle(master_challenge) {
        Ok(b) => b,
        Err(e) => {
            return Err(SubmissionBuilderError::InvalidConfig(e.message()));
        },
    };
    Ok(build_submission(timestamp, client_nonce, proof_bundle))
}

/// Consume server-issued parameters: derive the challenge, solve, and
/// package the submission.
pub fn solve_submission_from_params(
    engine: &mut EquixEngine,
    params: &SolveParams,
    client_nonce: [u8; 32],
) -> (r: Result<Submission, SubmissionBuilderError>)
    ensures
        *final(engine) == *old(engine),
        !spec_engine_valid(*old(engine)) ==> r is Err,
        spec_engine_valid(*old(engine)) ==> match spec_solve_from(
            spec_master_challenge(params.deterministic_nonce@, client_nonce@)@,
            old(engine).bits,
            0,
            old(engine).required_proofs as nat,
        ) {
            Some(s) => {
                &&& r matches Ok(sub)
                &&& sub.timestamp == params.timestamp
                &&& sub.client_nonce == client_nonce
                &&& sub.proof_bundle.proofs@ == s
                &&& sub.proof_bundle.master_challenge == spec_master_challenge(
                    params.deterministic_nonce@,
                    client_nonce@,
                )
                &&& bundle_ok(
                    sub.proof_bundle,
                    old(engine).bits,
                    old(engine).required_proofs as int,
                )
            },
            None => r is Err,
        },
{
    solve_submission(engine, params.timestamp, params.deterministic_nonce, client_nonce)
}

/// Build an engine from issued parameters, with a fresh progress
/// counter and a modest default thread count.
pub fn build_engine_from_params(params: &SolveParams) -> (r: Result<EquixEngine, crate::error::Error>)
    ensures
        r is Ok <==> (params.config.min_difficulty >= 1 && params.config.min_required_proofs >= 1),
        r matches Ok(e) ==> e.bits == params.config.min_difficulty && e.required_proofs
            == params.config.min_required_proofs && e.threads == 3 && spec_engine_valid(e),
{
    let progress = Arc::new(AtomicU64::new(0));
    EquixEngineBuilder::default()
        .bits(params.config.min_difficulty)
        .required_proofs(params.config.min_required_proofs)
        .threads(3)
        .progress(progress)
        .build_validated()
}

} // verus!
