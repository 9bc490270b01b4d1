use rspow::equix::engine::{solve_range, solve_single};
use rspow::{EquixEngineBuilder, Error, ProofBundle, ProofConfig};
use std::sync::atomic::{AtomicU64, Ordering};
use std::sync::Arc;

#[test]
fn engine_solve_single_returns_none_when_no_solution_meets_bits() {
    // Very high difficulty is unlikely to be met by any Equi-X solution
    // for this challenge.
    let challenge = [0u8; 32];
    let result = solve_single(challenge, 128).expect("solver should not error");
    assert!(result.is_none());
}

#[test]
fn mod_solve_single_returns_none_when_no_solution_meets_bits() {
    let challenge = [0u8; 32];
    let result = solve_single(challenge, 128).expect("solver should not error");
    assert!(result.is_none());
}

#[test]
fn solve_bundle_is_deterministic_single_thread() {
    let master = [11u8; 32];

    let progress1 = Arc::new(AtomicU64::new(0));
    let mut engine1 = EquixEngineBuilder::default()
        .bits(1)
        .threads(1)
        .required_proofs(3)
        .progress(progress1)
        .build()
        .expect("build engine1");
    let bundle1 = engine1.solve_bundle(master).expect("first solve should succeed");

    let progress2 = Arc::new(AtomicU64::new(0));
    let mut engine2 = EquixEngineBuilder::default()
        .bits(1)
        .threads(1)
        .required_proofs(3)
        .progress(progress2)
        .build()
        .expect("build engine2");
    let bundle2 = engine2.solve_bundle(master).expect("second solve should succeed");

    assert_eq!(bundle1, bundle2);
}

#[test]
fn engine_resume_starts_from_next_nonce() {
    let progress = Arc::new(AtomicU64::new(0));
    let master = [7u8; 32];

    // Build an existing bundle starting from a non-zero id (5).
    let existing_proofs = solve_range(master, 1, 1, 5, 0, 1, &progress).expect("seed bundle");

    let existing_ids: Vec<u64> = existing_proofs.iter().map(|p| p.id).collect();
    let max_existing_id = *existing_ids.iter().max().expect("have at least one proof");

    let bundle = ProofBundle {
        proofs: existing_proofs,
        config: ProofConfig { bits: 1 },
        master_challenge: master,
    };

    // Resume should not re-use any existing ids; new proofs must use
    // ids above max_existing_id.
    let mut engine = EquixEngineBuilder::default()
        .bits(1)
        .threads(1)
        .required_proofs(2)
        .progress(progress.clone())
        .build()
        .expect("build engine");

    let resumed = engine.resume(bundle).expect("resume should succeed");

    assert_eq!(resumed.len(), 2);
    // All existing ids must still be present.
    for id in &existing_ids {
        assert!(resumed.proofs.iter().any(|p| p.id == *id));
    }
    // Any new ids must be strictly greater than the max existing id.
    let new_ids: Vec<u64> = resumed
        .proofs
        .iter()
        .map(|p| p.id)
        .filter(|id| !existing_ids.contains(id))
        .collect();
    assert!(!new_ids.is_empty());
    assert!(new_ids.iter().all(|id| *id > max_existing_id));
}

#[test]
fn mod_resume_starts_from_next_nonce() {
    let progress = Arc::new(AtomicU64::new(0));
    let master = [7u8; 32];

    // Build an existing bundle with a non-zero starting id (5).
    let existing_proofs = solve_range(master, 1, 1, 5, 0, 1, &progress).expect("seed bundle");

    let bundle = ProofBundle {
        proofs: existing_proofs,
        config: ProofConfig { bits: 1 },
        master_challenge: master,
    };

    // Resume should not re-use id 5; expect ids 5 and >= 6 after
    // resume.
    let mut engine = EquixEngineBuilder::default()
        .bits(1)
        .threads(1)
        .required_proofs(2)
        .progress(progress.clone())
        .build()
        .expect("build engine");

    let resumed = engine.resume(bundle).expect("resume should succeed");

    assert_eq!(resumed.len(), 2);
    assert!(resumed.proofs.iter().any(|p| p.id == 5));
    assert!(resumed.proofs.iter().any(|p| p.id >= 6));
}

#[test]
fn single_and_multi_thread_solutions_are_equivalent() {
    let master = [21u8; 32];
    let required = 3usize;

    let progress_single = Arc::new(AtomicU64::new(0));
    let mut engine_single = EquixEngineBuilder::default()
        .bits(1)
        .threads(1)
        .required_proofs(required)
        .progress(progress_single)
        .build()
        .expect("build single-thread engine");

    let bundle_single = engine_single
        .solve_bundle(master)
        .expect("single-thread solve should succeed");

    let progress_multi = Arc::new(AtomicU64::new(0));
    let mut engine_multi = EquixEngineBuilder::default()
        .bits(1)
        .threads(2)
        .required_proofs(required)
        .progress(progress_multi)
        .build()
        .expect("build multi-thread engine");

    let bundle_multi = engine_multi
        .solve_bundle(master)
        .expect("multi-thread solve should succeed");

    assert_eq!(bundle_single.len(), required);
    assert_eq!(bundle_multi.len(), required);
    bundle_single
        .verify_strict(1, required)
        .expect("single-thread bundle should verify");
    bundle_multi
        .verify_strict(1, required)
        .expect("multi-thread bundle should verify");
    assert_eq!(bundle_single.master_challenge, master);
    assert_eq!(bundle_multi.master_challenge, master);
}

#[test]
fn resume_extends_bundle_n_to_n_plus_m() {
    let master = [31u8; 32];
    let progress = Arc::new(AtomicU64::new(0));
    let mut engine = EquixEngineBuilder::default()
        .bits(1)
        .threads(2)
        .required_proofs(2)
        .progress(progress.clone())
        .build()
        .expect("build engine");

    let initial = engine.solve_bundle(master).expect("initial solve should succeed");
    assert_eq!(initial.len(), 2);
    initial.verify_strict(1, 2).expect("initial bundle should verify");

    engine
        .set_required_proofs(5)
        .expect("update required_proofs for resume");

    let resumed = engine.resume(initial.clone()).expect("resume should extend bundle");
    assert_eq!(resumed.len(), 5);
    resumed.verify_strict(1, 5).expect("resumed bundle should verify");
    assert!(resumed.proofs.len() > initial.proofs.len());
}

#[test]
fn engine_resume_rejects_mismatched_bits() {
    let progress = Arc::new(AtomicU64::new(0));
    let mut engine_high = EquixEngineBuilder::default()
        .bits(2)
        .threads(1)
        .required_proofs(1)
        .progress(progress.clone())
        .build()
        .expect("build high bits engine");

    let bundle = engine_high.solve_bundle([9u8; 32]).expect("solve initial bundle");

    // Lower bits engine should refuse to resume a higher-difficulty
    // bundle.
    let mut engine_low = EquixEngineBuilder::default()
        .bits(1)
        .threads(1)
        .required_proofs(2)
        .progress(Arc::new(AtomicU64::new(0)))
        .build()
        .expect("build low bits engine");

    let err = engine_low.resume(bundle).expect_err("should reject bits mismatch");
    assert!(matches!(err, Error::InvalidConfig(_)));
}

#[test]
fn mod_resume_rejects_mismatched_bits() {
    let progress = Arc::new(AtomicU64::new(0));
    let mut engine_high = EquixEngineBuilder::default()
        .bits(2)
        .threads(1)
        .required_proofs(1)
        .progress(progress.clone())
        .build()
        .expect("build high bits engine");

    let bundle = engine_high.solve_bundle([9u8; 32]).expect("solve initial bundle");

    let mut engine_low = EquixEngineBuilder::default()
        .bits(1)
        .threads(1)
        .required_proofs(2)
        .progress(Arc::new(AtomicU64::new(0)))
        .build()
        .expect("build low bits engine");

    let err = engine_low.resume(bundle).expect_err("should reject bits mismatch");
    assert!(matches!(err, Error::InvalidConfig(_)));
}

#[test]
fn builder_rejects_zero_and_missing_fields() {
    let err = EquixEngineBuilder::default()
        .bits(0)
        .threads(1)
        .required_proofs(1)
        .progress(Arc::new(AtomicU64::new(0)))
        .build_validated()
        .expect_err("zero bits should be rejected");
    assert!(matches!(err, Error::InvalidConfig(_)));

    let err = EquixEngineBuilder::default()
        .bits(1)
        .threads(1)
        .required_proofs(1)
        .build()
        .expect_err("missing progress should be rejected");
    assert!(matches!(err, Error::InvalidConfig(_)));

    let mut engine = EquixEngineBuilder::default()
        .bits(1)
        .threads(1)
        .required_proofs(1)
        .progress(Arc::new(AtomicU64::new(0)))
        .build_validated()
        .expect("valid builder");
    assert!(matches!(engine.set_required_proofs(0), Err(Error::InvalidConfig(_))));
    engine.set_required_proofs(4).expect("positive target");
    assert_eq!(engine.required_proofs, 4);
}

#[test]
fn solve_range_fails_when_id_space_runs_out() {
    let progress = Arc::new(AtomicU64::new(0));
    let err = solve_range([3u8; 32], 1, 1, u64::MAX - 1, 0, 5, &progress)
        .expect_err("two ids cannot yield five proofs");
    assert!(matches!(err, Error::ChannelClosed));
}

#[test]
fn progress_counts_accepted_proofs() {
    let progress = Arc::new(AtomicU64::new(0));
    let mut engine = EquixEngineBuilder::default()
        .bits(1)
        .threads(1)
        .required_proofs(3)
        .progress(progress.clone())
        .build()
        .expect("build engine");
    engine.solve_bundle([13u8; 32]).expect("solve should succeed");
    assert_eq!(progress.load(Ordering::SeqCst), 3);
}
