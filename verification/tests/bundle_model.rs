use rspow::{Proof, ProofBundle, ProofConfig, VerifyError};
use rspow::{EquixEngineBuilder, PowBundle, PowConfig, PowProof};
use std::sync::atomic::AtomicU64;
use std::sync::Arc;

fn small_bundle(bits: u32, required: usize) -> ProofBundle {
    let progress = Arc::new(AtomicU64::new(0));
    let mut engine = EquixEngineBuilder::default()
        .bits(bits)
        .threads(1)
        .required_proofs(required)
        .progress(progress)
        .build()
        .expect("build engine");
    let master = [5u8; 32];
    engine.solve_bundle(master).expect("solve bundle")
}

#[test]
fn verify_strict_accepts_valid_bundle() {
    let bundle = small_bundle(1, 2);
    bundle.verify_strict(1, 2).expect("bundle should verify");
}

#[test]
fn verify_strict_rejects_duplicate_id() {
    let base = small_bundle(1, 2);
    let first = base.proofs[0];
    let bundle = ProofBundle {
        proofs: vec![first, first],
        config: base.config,
        master_challenge: base.master_challenge,
    };
    let err = bundle
        .verify_strict(base.config.bits, 2)
        .expect_err("duplicate id should be rejected");
    assert!(matches!(err, VerifyError::DuplicateProof));
}

#[test]
fn verify_strict_rejects_tampered_challenge() {
    let mut bundle = small_bundle(1, 1);
    bundle.proofs[0].challenge[0] ^= 1;
    let err = bundle
        .verify_strict(1, 1)
        .expect_err("tampered challenge should be rejected");
    assert!(matches!(err, VerifyError::Malformed));
}

#[test]
fn verify_strict_rejects_wrong_count() {
    let bundle = small_bundle(1, 2);
    let err = bundle
        .verify_strict(1, 3)
        .expect_err("wrong count should be rejected");
    assert!(matches!(err, VerifyError::InvalidDifficulty));
}

#[test]
fn verify_strict_rejects_tampered_solution() {
    let mut bundle = small_bundle(1, 1);
    bundle.proofs[0].solution[0] ^= 1;
    assert!(bundle.verify_strict(1, 1).is_err());
}

#[test]
fn insert_proof_rejects_duplicate_and_keeps_order() {
    let bundle2 = small_bundle(1, 2);
    let mut bundle = ProofBundle {
        proofs: Vec::new(),
        config: bundle2.config,
        master_challenge: bundle2.master_challenge,
    };
    let hi = bundle2.proofs[1];
    let lo = bundle2.proofs[0];
    bundle.insert_proof(hi).expect("first insert");
    bundle.insert_proof(lo).expect("second insert");
    assert_eq!(bundle.len(), 2);
    assert!(bundle.proofs[0].id < bundle.proofs[1].id);
    let err = bundle.insert_proof(lo).expect_err("duplicate id");
    assert!(matches!(err, VerifyError::DuplicateProof));
    assert!(!bundle.is_empty());
}

#[test]
fn pow_traits_expose_bundle_shape() {
    let bundle = small_bundle(1, 1);
    assert_eq!(bundle.config().difficulty(), 1);
    assert_eq!(PowBundle::proofs(&bundle).len(), 1);
    assert_eq!(PowBundle::proofs(&bundle)[0].id(), bundle.proofs[0].id);
    assert_eq!(PowBundle::master_challenge(&bundle), &bundle.master_challenge);
    PowBundle::verify_strict(&bundle).expect("bundle should verify via trait");
    let mut copy = bundle.clone();
    let dup = copy.proofs[0];
    let err = PowBundle::insert_proof(&mut copy, dup).expect_err("duplicate id");
    assert!(matches!(err, VerifyError::DuplicateProof));
}

#[test]
fn proof_verify_checks_difficulty() {
    let bundle = small_bundle(1, 1);
    let proof: Proof = bundle.proofs[0];
    proof
        .verify(1, bundle.master_challenge)
        .expect("proof should verify at its own difficulty");
    let err = proof
        .verify(257, bundle.master_challenge)
        .expect_err("no hash meets more than 256 bits");
    assert!(matches!(err, VerifyError::InvalidDifficulty));
    assert_eq!(ProofConfig { bits: 7 }.difficulty(), 7);
}
