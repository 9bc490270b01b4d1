use rspow::near_stateless::prf::derive_deterministic_nonce;
use rspow::{
    build_engine_from_params, build_submission, derive_master_challenge, solve_submission,
    solve_submission_from_params, Blake3NonceProvider, DeterministicNonceProvider, EquixEngine,
    EquixEngineBuilder, MemoryReplayCache, NearStatelessVerifier, NsError, ReplayCache,
    ReplayCacheError, SolveParams, Submission, TimeProvider, TimeWindow, VerifierConfig,
    VerifyError,
};
use std::cell::Cell;
use std::collections::HashMap;
use std::rc::Rc;
use std::sync::atomic::AtomicU64;
use std::sync::Arc;

#[derive(Default)]
struct MapReplayCache {
    map: HashMap<[u8; 32], u64>,
}

impl ReplayCache for MapReplayCache {
    fn insert_if_absent(
        &mut self,
        client_nonce: [u8; 32],
        expires_at: u64,
        now: u64,
    ) -> Result<bool, ReplayCacheError> {
        if let Some(exp) = self.map.get(&client_nonce) {
            if *exp > now {
                return Ok(false);
            }
        }
        self.map.insert(client_nonce, expires_at);
        Ok(true)
    }
}

#[derive(Clone, Copy, Default)]
struct TestNonceProvider;

impl DeterministicNonceProvider for TestNonceProvider {
    fn derive(&self, secret: [u8; 32], ts: u64) -> [u8; 32] {
        let mut out = secret;
        out[..8].copy_from_slice(&ts.to_le_bytes());
        out
    }
}

#[derive(Clone, Copy)]
struct FixedTimeProvider {
    now: u64,
}

impl TimeProvider for FixedTimeProvider {
    fn now_seconds(&self) -> u64 {
        self.now
    }
}

#[derive(Clone)]
struct SharedTimeProvider {
    now: Rc<Cell<u64>>,
}

impl TimeProvider for SharedTimeProvider {
    fn now_seconds(&self) -> u64 {
        self.now.get()
    }
}

fn make_engine(bits: u32, required: usize) -> EquixEngineBuilder {
    EquixEngineBuilder::default()
        .bits(bits)
        .threads(1)
        .required_proofs(required)
        .progress(Arc::new(AtomicU64::new(0)))
}

fn solve_one(
    engine: &mut EquixEngine,
    det: [u8; 32],
    client_nonce: [u8; 32],
    ts: u64,
) -> Submission {
    solve_submission(engine, ts, det, client_nonce).expect("solve should succeed")
}

fn verifier_with(
    cfg: VerifierConfig,
    time: impl TimeProvider,
    replay: impl ReplayCache,
) -> NearStatelessVerifier<TestNonceProvider, impl ReplayCache, impl TimeProvider> {
    NearStatelessVerifier::new(cfg, TestNonceProvider, replay, time)
        .expect("config should be valid")
}

#[test]
fn config_rejects_subsecond_window() {
    let cfg = VerifierConfig {
        time_window: TimeWindow::from_millis(900),
        min_difficulty: 1,
        min_required_proofs: 1,
    };
    assert!(cfg.validate().is_err());
}

#[test]
fn config_rejects_fractional_and_zero_values() {
    let mut cfg = VerifierConfig {
        time_window: TimeWindow::from_millis(1500),
        min_difficulty: 1,
        min_required_proofs: 1,
    };
    assert!(cfg.validate().is_err(), "non-integral seconds rejected");
    cfg.time_window = TimeWindow::from_secs(2);
    cfg.min_difficulty = 0;
    assert!(cfg.validate().is_err(), "zero difficulty rejected");
    cfg.min_difficulty = 1;
    cfg.min_required_proofs = 0;
    assert!(cfg.validate().is_err(), "zero proof count rejected");
    cfg.min_required_proofs = 1;
    cfg.validate().expect("valid config accepted");
}

#[test]
fn verify_submission_happy_path() {
    let mut engine = make_engine(1, 1).build_validated().unwrap();
    let cfg = VerifierConfig { time_window: TimeWindow::from_secs(10), ..Default::default() };
    let ts = 1_000;
    let now = 1_004;
    let det = TestNonceProvider.derive([9u8; 32], ts);
    let client_nonce = [7u8; 32];
    let submission = solve_one(&mut engine, det, client_nonce, ts);

    let mut verifier = verifier_with(cfg, FixedTimeProvider { now }, MapReplayCache::default());

    assert!(verifier.verify_submission([9u8; 32], &submission).is_ok());
}

#[test]
fn rejects_future_timestamp() {
    let mut engine = make_engine(1, 1).build_validated().unwrap();
    let ts = 10;
    let det = TestNonceProvider.derive([1u8; 32], ts);
    let submission = solve_one(&mut engine, det, [2u8; 32], ts);
    let mut verifier = verifier_with(
        VerifierConfig::default(),
        FixedTimeProvider { now: 5 },
        MapReplayCache::default(),
    );

    match verifier.verify_submission([1u8; 32], &submission) {
        Err(NsError::FutureTimestamp) => {}
        other => panic!("expected future timestamp, got {:?}", other),
    }
}

#[test]
fn rejects_stale_timestamp() {
    let mut engine = make_engine(1, 1).build_validated().unwrap();
    let cfg = VerifierConfig { time_window: TimeWindow::from_secs(5), ..Default::default() };
    let ts = 10;
    let det = TestNonceProvider.derive([3u8; 32], ts);
    let submission = solve_one(&mut engine, det, [4u8; 32], ts);
    let mut verifier = verifier_with(cfg, FixedTimeProvider { now: 16 }, MapReplayCache::default());

    match verifier.verify_submission([3u8; 32], &submission) {
        Err(NsError::StaleTimestamp) => {}
        other => panic!("expected stale, got {:?}", other),
    }
}

#[test]
fn rejects_timestamp_exactly_at_window_edge() {
    let mut engine = make_engine(1, 1).build_validated().unwrap();
    let cfg = VerifierConfig { time_window: TimeWindow::from_secs(5), ..Default::default() };
    let ts = 10;
    let det = TestNonceProvider.derive([3u8; 32], ts);
    let submission = solve_one(&mut engine, det, [4u8; 32], ts);
    // now - ts == window exactly.
    let mut verifier = verifier_with(cfg, FixedTimeProvider { now: 15 }, MapReplayCache::default());

    match verifier.verify_submission([3u8; 32], &submission) {
        Err(NsError::StaleTimestamp) => {}
        other => panic!("expected stale at edge, got {:?}", other),
    }
}

#[test]
fn detects_replay() {
    let mut engine = make_engine(1, 1).build_validated().unwrap();
    let cfg = VerifierConfig { time_window: TimeWindow::from_secs(10), ..Default::default() };
    let ts = 100;
    let det = TestNonceProvider.derive([5u8; 32], ts);
    let submission = solve_one(&mut engine, det, [6u8; 32], ts);
    let mut verifier =
        verifier_with(cfg, FixedTimeProvider { now: 103 }, MapReplayCache::default());

    verifier
        .verify_submission([5u8; 32], &submission)
        .expect("first verify should succeed");

    match verifier.verify_submission([5u8; 32], &submission) {
        Err(NsError::Replay) => {}
        other => panic!("expected replay, got {:?}", other),
    }
}

#[test]
fn config_update_applies_to_verification() {
    let mut engine = make_engine(1, 1).build_validated().unwrap();
    let ts = 200;
    let det = TestNonceProvider.derive([8u8; 32], ts);
    let submission = solve_one(&mut engine, det, [9u8; 32], ts);
    let mut verifier = verifier_with(
        VerifierConfig { time_window: TimeWindow::from_secs(10), ..Default::default() },
        FixedTimeProvider { now: 205 },
        MapReplayCache::default(),
    );

    let new_cfg = VerifierConfig {
        time_window: TimeWindow::from_secs(10),
        min_required_proofs: 2,
        ..Default::default()
    };
    verifier.set_config(new_cfg).unwrap();

    match verifier.verify_submission([8u8; 32], &submission) {
        Err(NsError::Verify(VerifyError::InvalidDifficulty)) => {}
        other => panic!("expected difficulty error, got {:?}", other),
    }
}

#[test]
fn master_challenge_mismatch_is_rejected() {
    let mut engine = make_engine(1, 1).build_validated().unwrap();
    let ts = 50;
    let det = TestNonceProvider.derive([11u8; 32], ts);
    let submission = solve_one(&mut engine, det, [12u8; 32], ts);
    let mut verifier = verifier_with(
        VerifierConfig { time_window: TimeWindow::from_secs(10), ..Default::default() },
        FixedTimeProvider { now: 55 },
        MapReplayCache::default(),
    );

    match verifier.verify_submission([99u8; 32], &submission) {
        Err(NsError::MasterChallengeMismatch) => {}
        other => panic!("expected mismatch, got {:?}", other),
    }
}

#[test]
fn tampered_client_nonce_is_rejected() {
    let mut engine = make_engine(1, 1).build_validated().unwrap();
    let ts = 60;
    let det = TestNonceProvider.derive([15u8; 32], ts);
    let mut submission = solve_one(&mut engine, det, [16u8; 32], ts);
    submission.client_nonce[0] ^= 1;
    let mut verifier = verifier_with(
        VerifierConfig { time_window: TimeWindow::from_secs(10), ..Default::default() },
        FixedTimeProvider { now: 61 },
        MapReplayCache::default(),
    );

    match verifier.verify_submission([15u8; 32], &submission) {
        Err(NsError::MasterChallengeMismatch) => {}
        other => panic!("expected mismatch, got {:?}", other),
    }
}

#[test]
fn build_submission_is_equivalent_to_struct_literal() {
    let mut engine = make_engine(1, 1).build_validated().unwrap();
    let ts = 70;
    let det = TestNonceProvider.derive([13u8; 32], ts);
    let client_nonce = [14u8; 32];
    let master = derive_master_challenge(det, client_nonce);
    let bundle = engine.solve_bundle(master).expect("solve should succeed");

    let via_helper = build_submission(ts, client_nonce, bundle.clone());
    let direct = Submission { timestamp: ts, client_nonce, proof_bundle: bundle };

    assert_eq!(via_helper.timestamp, direct.timestamp);
    assert_eq!(via_helper.client_nonce, direct.client_nonce);
    assert_eq!(via_helper.proof_bundle.proofs.len(), direct.proof_bundle.proofs.len());
}

#[test]
fn near_stateless_happy_path_with_real_providers() {
    // Server issues parameters at a frozen clock, the client solves,
    // and the same submission replayed a second later is rejected.
    let secret = [9u8; 32];
    let now = Rc::new(Cell::new(1_000u64));
    let cfg = VerifierConfig { time_window: TimeWindow::from_secs(10), ..Default::default() };
    let mut verifier = NearStatelessVerifier::new(
        cfg,
        Blake3NonceProvider,
        MemoryReplayCache::new(64),
        SharedTimeProvider { now: now.clone() },
    )
    .expect("config should be valid");

    let params = verifier.issue_params(secret);
    assert_eq!(params.timestamp, 1_000);
    assert_eq!(params.deterministic_nonce, derive_deterministic_nonce(secret, 1_000));
    assert_eq!(params.config, cfg);

    let mut engine = build_engine_from_params(&params).expect("engine from params");
    assert_eq!(engine.threads, 3);
    let client_nonce = [21u8; 32];
    let submission = solve_submission_from_params(&mut engine, &params, client_nonce)
        .expect("solve should succeed");

    now.set(1_004);
    verifier
        .verify_submission(secret, &submission)
        .expect("first submission should verify");

    now.set(1_005);
    match verifier.verify_submission(secret, &submission) {
        Err(NsError::Replay) => {}
        other => panic!("expected replay, got {:?}", other),
    }
}

#[test]
fn deterministic_nonce_matches_keyed_blake3_reference() {
    let secret = [9u8; 32];
    let ts = 1_000u64;
    let mut hasher = blake3::Hasher::new_keyed(&secret);
    hasher.update(b"rspow:nonce:v1");
    hasher.update(&ts.to_le_bytes());
    let expected: [u8; 32] = hasher.finalize().into();
    assert_eq!(derive_deterministic_nonce(secret, ts), expected);
    assert_eq!(Blake3NonceProvider.derive(secret, ts), expected);
}

#[test]
fn master_challenge_matches_blake3_reference() {
    let det = [3u8; 32];
    let client = [4u8; 32];
    let mut hasher = blake3::Hasher::new();
    hasher.update(b"rspow:challenge:v1");
    hasher.update(&det);
    hasher.update(&client);
    let expected: [u8; 32] = hasher.finalize().into();
    assert_eq!(derive_master_challenge(det, client), expected);
}

#[test]
fn memory_replay_cache_inserts_and_rejects() {
    let mut cache = MemoryReplayCache::new(2);
    let nonce = [1u8; 32];
    assert!(cache.insert_if_absent(nonce, 20, 10).expect("insert"));
    assert!(!cache.insert_if_absent(nonce, 25, 15).expect("still live"));
    // Expired entries are never treated as present.
    assert!(cache.insert_if_absent(nonce, 40, 30).expect("expired entry reinserts"));
    // Capacity eviction drops the oldest entry, never the new one.
    assert!(cache.insert_if_absent([2u8; 32], 40, 30).expect("second nonce"));
    assert!(cache.insert_if_absent([3u8; 32], 40, 30).expect("third nonce evicts"));
    assert!(cache.insert_if_absent(nonce, 50, 30).expect("evicted nonce is insertable again"));
}

#[test]
fn invalid_engine_fails_submission_building() {
    let params = SolveParams {
        timestamp: 5,
        deterministic_nonce: [0u8; 32],
        config: VerifierConfig {
            time_window: TimeWindow::from_secs(1),
            min_difficulty: 0,
            min_required_proofs: 1,
        },
    };
    assert!(build_engine_from_params(&params).is_err());

    let mut engine = EquixEngineBuilder::default()
        .bits(0)
        .threads(1)
        .required_proofs(1)
        .progress(Arc::new(AtomicU64::new(0)))
        .build()
        .expect("build tolerates zero bits");
    let err = solve_submission(&mut engine, 5, [0u8; 32], [1u8; 32])
        .expect_err("invalid engine must fail");
    let rspow::SubmissionBuilderError::InvalidConfig(msg) = err;
    assert!(!msg.is_empty());
}
