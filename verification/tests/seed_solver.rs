use rspow::equix::bundle::{derive_replay_tags, EquixProofBundle};
use rspow::equix::solver::{
    equix_challenge, equix_check_bits, equix_solve_bundle, equix_solve_parallel_hits,
    equix_solve_with_bits, equix_verify_solution, EquixSolveConfig, EquixSolver,
};
use rspow::equix::types::{EquixProof, EquixSolution};
use rspow::work::{HitStop, NonceSource};
use sha2::{Digest, Sha256};

#[test]
fn nonce_source_increments() {
    let ns = NonceSource::new(5);
    assert_eq!(ns.fetch(), 5);
    assert_eq!(ns.fetch(), 6);
}

#[test]
fn hit_stop_triggers_at_limit() {
    let hs = HitStop::new(2).unwrap();
    assert!(!hs.should_stop());
    assert!(!hs.record_hit());
    assert_eq!(hs.found(), 1);
    assert!(hs.record_hit());
    assert!(hs.should_stop());
}

#[test]
fn hit_stop_rejects_zero_limit() {
    assert!(HitStop::new(0).is_err());
}

#[test]
fn stream_nonce_source_and_stop_flag() {
    let ns = rspow::stream::NonceSource::new(9);
    assert_eq!(ns.fetch(), 9);
    assert_eq!(ns.fetch(), 10);
    let flag = rspow::stream::StopFlag::new();
    assert!(!flag.should_stop());
    flag.force_stop();
    assert!(flag.should_stop());
}

#[test]
fn equix_challenge_appends_nonce_bytes() {
    let seed = b"session seed";
    let ch = equix_challenge(seed, 0x0102030405060708);
    assert_eq!(&ch[..seed.len()], seed.as_slice());
    assert_eq!(&ch[seed.len()..], &[8, 7, 6, 5, 4, 3, 2, 1]);
}

#[test]
fn solve_with_bits_finds_verifying_proof() {
    let seed = b"rspow test seed";
    let (proof, hash) = equix_solve_with_bits(seed, 1, 0).expect("solve should succeed");
    let expected: [u8; 32] = Sha256::digest(proof.solution.0).into();
    assert_eq!(hash, expected, "difficulty hash is SHA-256 of the solution");
    assert!(hash[0] < 0x80, "one leading zero bit");
    let recomputed = equix_verify_solution(seed, &proof).expect("proof should verify");
    assert_eq!(recomputed, expected);
    assert!(equix_check_bits(seed, &proof, 1).expect("check should verify"));
}

#[test]
fn tampered_seed_proof_fails_verification() {
    let seed = b"rspow test seed";
    let (mut proof, _) = equix_solve_with_bits(seed, 1, 0).expect("solve should succeed");
    proof.solution.0[0] ^= 1;
    assert!(equix_verify_solution(seed, &proof).is_err());
}

#[test]
fn parallel_hits_are_sorted_and_verify() {
    let seed = b"parallel seed";
    let hits = equix_solve_parallel_hits(seed, 1, 2, 2, 0).expect("solve should succeed");
    assert_eq!(hits.len(), 2);
    assert!(hits[0].0.work_nonce < hits[1].0.work_nonce);
    for (proof, hash) in &hits {
        let expected: [u8; 32] = Sha256::digest(proof.solution.0).into();
        assert_eq!(*hash, expected);
        assert!(equix_check_bits(seed, proof, 1).expect("verify"));
    }
}

#[test]
fn parallel_hits_reject_zero_config() {
    let seed = b"parallel seed";
    assert!(equix_solve_parallel_hits(seed, 1, 0, 1, 0).is_err());
    assert!(equix_solve_parallel_hits(seed, 1, 1, 0, 0).is_err());
}

#[test]
fn solver_bundle_keeps_base_tag_and_proofs() {
    let seed = b"bundle seed";
    let solver = EquixSolver::new(seed, 1);
    let cfg = EquixSolveConfig { threads: 1, hits: 2, start_work_nonce: 0 };
    let base_tag = [7u8; 32];
    let bundle = solver.solve_bundle(&cfg, base_tag).expect("bundle should build");
    assert_eq!(bundle.base_tag, base_tag);
    assert_eq!(bundle.proofs.len(), 2);
    let flags = bundle.verify_all(seed, 1).expect("bundle should verify");
    assert_eq!(flags, vec![true, true]);
}

#[test]
fn verify_all_rejects_duplicates() {
    let seed = b"bundle seed";
    let (proof, _) = equix_solve_with_bits(seed, 1, 0).expect("solve should succeed");
    let bundle = EquixProofBundle { base_tag: [0u8; 32], proofs: vec![proof, proof] };
    assert!(bundle.verify_all(seed, 1).is_err());
}

#[test]
fn solve_bundle_rejects_foreign_hits() {
    let seed = b"bundle seed";
    let cfg = EquixSolveConfig { threads: 1, hits: 1, start_work_nonce: 0 };
    let fake = rspow::equix::types::EquixHit {
        proof: EquixProof { work_nonce: 1, solution: EquixSolution([0u8; 16]) },
        hash: [0u8; 32],
    };
    assert!(equix_solve_bundle(seed, 1, &cfg, [0u8; 32], vec![fake]).is_err());
}

#[test]
fn derived_tags_match_sha256_reference() {
    let base_tag = [5u8; 32];
    let tags = derive_replay_tags(&base_tag, 2);
    assert_eq!(tags.len(), 2);
    for (i, tag) in tags.iter().enumerate() {
        let mut h = Sha256::new();
        h.update(b"rspow:replay:v1|");
        h.update(base_tag);
        h.update(((i + 1) as u64).to_le_bytes());
        let expected: [u8; 32] = h.finalize().into();
        assert_eq!(*tag, expected);
    }

    let seed = b"bundle seed";
    let (proof, _) = equix_solve_with_bits(seed, 1, 0).expect("solve should succeed");
    let single = EquixProofBundle { base_tag, proofs: vec![proof] };
    assert!(single.derived_tags().is_empty());
    let (second, _) =
        equix_solve_with_bits(seed, 1, proof.work_nonce + 1).expect("second solve");
    let double = EquixProofBundle { base_tag, proofs: vec![proof, second] };
    assert_eq!(double.derived_tags(), tags[..1].to_vec());
}
