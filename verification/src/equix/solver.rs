//! Seed-based Equi-X solving: challenges are the seed bytes followed by
//! a little-endian work nonce, and difficulty is measured on the
//! SHA-256 digest of the solution bytes.

use crate::difficulty::{meets_leading_zero_bits, spec_meets_bits, DifficultyMode};
use crate::equix::primitive::{equix_accepts, equix_solutions, equix_solutions_of, equix_verify};
use crate::equix::types::{EquixHit, EquixProof, EquixSolution};
use crate::hashing::{sha256_hash32, sha256_of};
use vstd::bytes::{spec_u64_to_le_bytes, u64_to_le_bytes};
use vstd::prelude::*;

verus! {

/// The Equi-X challenge bytes for `(seed, work_nonce)`: the seed
/// followed by the nonce little-endian.
pub open spec fn spec_equix_challenge(seed: Seq<u8>, work_nonce: u64) -> Seq<u8> {
    seed + spec_u64_to_le_bytes(work_nonce)
}

/// Build the Equi-X challenge bytes from an application-defined seed
/// and a work nonce. Keep the seed stable for a session and vary only
/// the nonce.
pub fn equix_challenge(seed: &[u8], work_nonce: u64) -> (r: Vec<u8>)
    ensures
        r@ == spec_equix_challenge(seed@, work_nonce),
{
    let mut ch: Vec<u8> = Vec::new();
    ch.extend_from_slice(seed);
    let nonce_bytes = u64_to_le_bytes(work_nonce);
    ch.extend_from_slice(nonce_bytes.as_slice());
    ch
}

/// What verifying a seed-based proof yields: the SHA-256 digest of the
/// solution bytes when Equi-X accepts them for the derived challenge.
pub open spec fn spec_verify_outcome(seed: Seq<u8>, p: EquixProof) -> Option<[u8; 32]> {
    if equix_accepts(spec_equix_challenge(seed, p.work_nonce), p.solution.0@) {
        Some(sha256_of(p.solution.0@))
    } else {
        None
    }
}

/// Verify a single seed-based proof and return the SHA-256 digest of
/// its solution bytes. This never solves: verification is cheap.
pub fn equix_verify_solution(seed: &[u8], proof: &EquixProof) -> (r: Result<[u8; 32], String>)
    ensures
        match spec_verify_outcome(seed@, *proof) {
            Some(h) => r == Ok::<[u8; 32], String>(h),
            None => r is Err,
        },
{
    let challenge = equix_challenge(seed, proof.work_nonce);
    if !equix_verify(challenge.as_slice(), &proof.solution.0) {
        return Err("equix solution failed verification".to_owned());
    }
    Ok(sha256_hash32(proof.solution.0.as_slice()))
}

/// Check that a seed-based proof verifies and that its difficulty hash
/// meets the required leading zero bits.
pub fn equix_check_bits(seed: &[u8], proof: &EquixProof, bits: u32) -> (r: Result<bool, String>)
    ensures
        match spec_verify_outcome(seed@, *proof) {
            Some(h) => r == Ok::<bool, String>(spec_meets_bits(h@, bits)),
            None => r is Err,
        },
{
    let hash = match equix_verify_solution(seed, proof) {
        Ok(h) => h,
        Err(e) => {
            return Err(e);
        },
    };
    Ok(meets_leading_zero_bits(&hash, bits))
}

/// The first solution in a list whose SHA-256 digest meets `bits`,
/// scanning from position `i`.
pub open spec fn spec_first_sha_hit(sols: Seq<[u8; 16]>, bits: u32, i: int) -> Option<[u8; 16]>
    decreases sols.len() - i,
{
    if i < 0 || i >= sols.len() {
        None
    } else if spec_meets_bits(sha256_of(sols[i]@)@, bits) {
        Some(sols[i])
    } else {
        spec_first_sha_hit(sols, bits, i + 1)
    }
}

/// What one work nonce yields under a seed: `None` when Equi-X
/// construction fails or no solution meets the difficulty, otherwise
/// the first solution that does.
pub open spec fn spec_seed_hit(seed: Seq<u8>, bits: u32, work_nonce: u64) -> Option<[u8; 16]> {
    match equix_solutions_of(spec_equix_challenge(seed, work_nonce)) {
        Some(sols) => spec_first_sha_hit(sols, bits, 0),
        None => None,
    }
}

/// Scan one work nonce: the first solution of its challenge whose
/// SHA-256 digest meets `bits`, with the digest.
fn scan_work_nonce(seed: &[u8], bits: u32, work_nonce: u64) -> (r: Option<([u8; 16], [u8; 32])>)
    ensures
        match spec_seed_hit(seed@, bits, work_nonce) {
            Some(sol) => {
                &&& r matches Some(p)
                &&& p.0 == sol
                &&& p.1 == sha256_of(sol@)
                &&& equix_accepts(spec_equix_challenge(seed@, work_nonce), sol@)
                &&& spec_meets_bits(sha256_of(sol@)@, bits)
            },
            None => r is None,
        },
{
    let challenge = equix_challenge(seed, work_nonce);
    let sols = match equix_solutions(challenge.as_slice()) {
        Some(sols) => sols,
        None => {
            return None;
        },
    };
    let ghost gsols = sols@;
    let mut i: usize = 0;
    while i < sols.len()
        invariant
            0 <= i <= sols@.len(),
            sols@ == gsols,
            equix_solutions_of(spec_equix_challenge(seed@, work_nonce)) == Some(gsols),
            forall|j: int|
                0 <= j < gsols.len() ==> equix_accepts(
                    spec_equix_challenge(seed@, work_nonce),
                    gsols[j]@,
                ),
            spec_first_sha_hit(gsols, bits, 0) == spec_first_sha_hit(gsols, bits, i as int),
        decreases sols@.len() - i,
    {
        let sol = sols[i];
        let hash = sha256_hash32(sol.as_slice());
        if meets_leading_zero_bits(&hash, bits) {
            proof {
                assert(spec_first_sha_hit(gsols, bits, i as int) == Some(sol));
            }
            return Some((sol, hash));
        }
        proof {
            assert(spec_first_sha_hit(gsols, bits, i as int) == spec_first_sha_hit(
                gsols,
                bits,
                i + 1,
            ));
        }
        i += 1;
    }
    None
}

/// The result of walking work nonces upward from `work_nonce` until one
/// yields a qualifying solution: `None` when the nonce space runs out.
pub open spec fn spec_solve_with_bits_from(seed: Seq<u8>, bits: u32, work_nonce: u64) -> Option<
    (u64, [u8; 16]),
>
    decreases u64::MAX - work_nonce,
{
    match spec_seed_hit(seed, bits, work_nonce) {
        Some(sol) => Some((work_nonce, sol)),
        None => {
            if work_nonce == u64::MAX {
                None
            } else {
                spec_solve_with_bits_from(seed, bits, (work_nonce + 1) as u64)
            }
        },
    }
}

/// Solve by varying the work nonce upward, returning the first proof
/// whose difficulty hash meets `bits` together with that hash.
/// Challenges that fail Equi-X construction are skipped; exhausting the
/// nonce space is an error.
pub fn equix_solve_with_bits(seed: &[u8], bits: u32, start_work_nonce: u64) -> (r: Result<
    (EquixProof, [u8; 32]),
    String,
>)
    ensures
        match spec_solve_with_bits_from(seed@, bits, start_work_nonce) {
            Some(hit) => {
                &&& r matches Ok(p)
                &&& p.0.work_nonce == hit.0
                &&& p.0.solution.0 == hit.1
                &&& p.1 == sha256_of(hit.1@)
                &&& equix_accepts(spec_equix_challenge(seed@, hit.0), hit.1@)
                &&& spec_meets_bits(sha256_of(hit.1@)@, bits)
            },
            None => r is Err,
        },
{
    let mut work_nonce = start_work_nonce;
    loop
        invariant
            start_work_nonce <= work_nonce,
            spec_solve_with_bits_from(seed@, bits, start_work_nonce) == spec_solve_with_bits_from(
                seed@,
                bits,
                work_nonce,
            ),
        decreases u64::MAX - work_nonce,
    {
        match scan_work_nonce(seed, bits, work_nonce) {
            Some((sol, hash)) => {
                proof {
                    assert(spec_solve_with_bits_from(seed@, bits, work_nonce) == Some(
                        (work_nonce, sol),
                    ));
                }
                let proof_value = EquixProof { work_nonce, solution: EquixSolution(sol) };
                return Ok((proof_value, hash));
            },
            None => {
                proof {
                    if work_nonce == u64::MAX {
                        assert(spec_solve_with_bits_from(seed@, bits, work_nonce) is None);
                    } else {
                        assert(spec_solve_with_bits_from(seed@, bits, work_nonce)
                            == spec_solve_with_bits_from(seed@, bits, (work_nonce + 1) as u64));
                    }
                }
                if work_nonce == u64::MAX {
                    return Err("work_nonce overflow".to_owned());
                }
                work_nonce += 1;
            },
        }
    }
}

/// Configuration for a multi-hit Equi-X solve.
#[derive(Clone, Debug)]
pub struct EquixSolveConfig {
    /// Worker slots; shapes scheduling, never results.
    pub threads: usize,
    /// Number of hits to collect.
    pub hits: usize,
    /// First work nonce to try.
    pub start_work_nonce: u64,
}

/// The hits collected by walking work nonces upward from `work_nonce`
/// until `needed` of them yield a qualifying solution, one hit per
/// nonce. `None` when the nonce space runs out first.
pub open spec fn spec_collect_hits(seed: Seq<u8>, bits: u32, work_nonce: u64, needed: nat) -> Option<
    Seq<(u64, [u8; 16])>,
>
    decreases needed, u64::MAX - work_nonce,
{
    if needed == 0 {
        Some(Seq::empty())
    } else {
        match spec_seed_hit(seed, bits, work_nonce) {
            Some(sol) => {
                if needed == 1 {
                    Some(seq![(work_nonce, sol)])
                } else if work_nonce == u64::MAX {
                    None
                } else {
                    match spec_collect_hits(seed, bits, (work_nonce + 1) as u64, (needed - 1) as nat) {
                        Some(rest) => Some(seq![(work_nonce, sol)] + rest),
                        None => None,
                    }
                }
            },
            None => {
                if work_nonce == u64::MAX {
                    None
                } else {
                    spec_collect_hits(seed, bits, (work_nonce + 1) as u64, needed)
                }
            },
        }
    }
}

/// A hit matches a `(work_nonce, solution)` pair found by the search.
pub open spec fn hit_matches(seed: Seq<u8>, bits: u32, h: EquixHit, pair: (u64, [u8; 16])) -> bool {
    &&& h.proof.work_nonce == pair.0
    &&& h.proof.solution.0 == pair.1
    &&& h.hash == sha256_of(pair.1@)
    &&& equix_accepts(spec_equix_challenge(seed, pair.0), pair.1@)
    &&& spec_meets_bits(sha256_of(pair.1@)@, bits)
}

/// Collect `cfg.hits` Equi-X hits by walking work nonces upward from
/// `cfg.start_work_nonce`, at most one hit per nonce, each hit's
/// SHA-256 digest meeting `bits`. The result is the deterministic
/// function named by `spec_collect_hits`, sorted by work nonce.
pub fn equix_solve_parallel_hits_cfg(seed: &[u8], bits: u32, cfg: &EquixSolveConfig) -> (r: Result<
    Vec<EquixHit>,
    String,
>)
    ensures
        cfg.threads == 0 || cfg.hits == 0 ==> r is Err,
        cfg.threads >= 1 && cfg.hits >= 1 ==> match spec_collect_hits(
            seed@,
            bits,
            cfg.start_work_nonce,
            cfg.hits as nat,
        ) {
            Some(s) => {
                &&& r matches Ok(v)
                &&& v@.len() == s.len()
                &&& s.len() == cfg.hits
                &&& forall|i: int|
                    0 <= i < s.len() ==> hit_matches(seed@, bits, #[trigger] v@[i], s[i])
                &&& forall|i: int, j: int|
                    0 <= i < j < s.len() ==> (#[trigger] v@[i]).proof.work_nonce < (
                    #[trigger] v@[j]).proof.work_nonce
            },
            None => r is Err,
        },
{
    if cfg.threads == 0 || cfg.hits == 0 {
        return Err("threads and hits must be >= 1".to_owned());
    }
    let needed = cfg.hits;
    let ghost gneeded = needed as nat;
    let start = cfg.start_work_nonce;
    let mut hits: Vec<EquixHit> = Vec::new();
    let ghost mut pairs: Seq<(u64, [u8; 16])> = Seq::empty();
    let mut work_nonce: u64 = start;
    while hits.len() < needed
        invariant
            hits@.len() == pairs.len(),
            hits@.len() <= gneeded,
            gneeded == needed,
            needed == cfg.hits,
            start == cfg.start_work_nonce,
            start <= work_nonce,
            forall|i: int|
                0 <= i < hits@.len() ==> hit_matches(seed@, bits, #[trigger] hits@[i], pairs[i]),
            forall|i: int| 0 <= i < pairs.len() ==> (#[trigger] pairs[i]).0 <= work_nonce,
            hits@.len() < gneeded ==> forall|i: int|
                0 <= i < pairs.len() ==> (#[trigger] pairs[i]).0 < work_nonce,
            forall|i: int, j: int|
                0 <= i < j < pairs.len() ==> (#[trigger] pairs[i]).0 < (#[trigger] pairs[j]).0,
            match spec_collect_hits(seed@, bits, work_nonce, (gneeded - hits@.len()) as nat) {
                Some(rest) => spec_collect_hits(seed@, bits, start, gneeded) == Some(
                    pairs + rest,
                ),
                None => spec_collect_hits(seed@, bits, start, gneeded) is None,
            },
        decreases gneeded - hits@.len(), u64::MAX - work_nonce,
    {
        let ghost remaining = (gneeded - hits@.len()) as nat;
        let ghost prepairs = pairs;
        match scan_work_nonce(seed, bits, work_nonce) {
            Some((sol, hash)) => {
                let hit = EquixHit {
                    proof: EquixProof { work_nonce, solution: EquixSolution(sol) },
                    hash,
                };
                hits.push(hit);
                proof {
                    pairs = prepairs.push((work_nonce, sol));
                    assert(hits@[hits@.len() - 1] == hit);
                    if remaining == 1 {
                        assert(spec_collect_hits(seed@, bits, work_nonce, remaining) == Some(
                            seq![(work_nonce, sol)],
                        ));
                        assert(prepairs + seq![(work_nonce, sol)] =~= pairs);
                        assert(spec_collect_hits(seed@, bits, work_nonce, 0nat) == Some(
                            Seq::<(u64, [u8; 16])>::empty(),
                        ));
                        assert(pairs + Seq::<(u64, [u8; 16])>::empty() =~= pairs);
                    }
                }
                if hits.len() < needed {
                    proof {
                        if work_nonce == u64::MAX {
                            assert(spec_collect_hits(seed@, bits, work_nonce, remaining) is None);
                        }
                    }
                    if work_nonce == u64::MAX {
                        return Err("work_nonce overflow".to_owned());
                    }
                    proof {
                        match spec_collect_hits(
                            seed@,
                            bits,
                            (work_nonce + 1) as u64,
                            (remaining - 1) as nat,
                        ) {
                            Some(rest) => {
                                assert(spec_collect_hits(seed@, bits, work_nonce, remaining)
                                    == Some(seq![(work_nonce, sol)] + rest));
                                assert(prepairs + (seq![(work_nonce, sol)] + rest) =~= pairs
                                    + rest);
                            },
                            None => {},
                        }
                    }
                    work_nonce += 1;
                }
            },
            None => {
                proof {
                    if work_nonce == u64::MAX {
                        assert(spec_collect_hits(seed@, bits, work_nonce, remaining) is None);
                    } else {
                        assert(spec_collect_hits(seed@, bits, work_nonce, remaining)
                            == spec_collect_hits(seed@, bits, (work_nonce + 1) as u64, remaining));
                    }
                }
                if work_nonce == u64::MAX {
                    return Err("work_nonce overflow".to_owned());
                }
                work_nonce += 1;
            },
        }
    }
    proof {
        assert(spec_collect_hits(seed@, bits, work_nonce, 0nat) == Some(
            Seq::<(u64, [u8; 16])>::empty(),
        ));
        assert(pairs + Seq::<(u64, [u8; 16])>::empty() =~= pairs);
    }
    Ok(hits)
}

/// Collect hits with the parameters given flat, as `(proof, hash)`
/// pairs.
pub fn equix_solve_parallel_hits(
    seed: &[u8],
    bits: u32,
    hits: usize,
    threads: usize,
    start_work_nonce: u64,
) -> (r: Result<Vec<(EquixProof, [u8; 32])>, String>)
    ensures
        threads == 0 || hits == 0 ==> r is Err,
        threads >= 1 && hits >= 1 ==> match spec_collect_hits(
            seed@,
            bits,
            start_work_nonce,
            hits as nat,
        ) {
            Some(s) => {
                &&& r matches Ok(v)
                &&& v@.len() == s.len()
                &&& forall|i: int|
                    0 <= i < s.len() ==> (#[trigger] v@[i]).0.work_nonce == s[i].0 && v@[i].0.solution.0
                        == s[i].1 && v@[i].1 == sha256_of(s[i].1@)
            },
            None => r is Err,
        },
{
    let cfg = EquixSolveConfig { threads, hits, start_work_nonce };
    let found = match equix_solve_parallel_hits_cfg(seed, bits, &cfg) {
        Ok(v) => v,
        Err(e) => {
            return Err(e);
        },
    };
    let mut out: Vec<(EquixProof, [u8; 32])> = Vec::new();
    let mut i: usize = 0;
    while i < found.len()
        invariant
            0 <= i <= found@.len(),
            out@.len() == i,
            forall|j: int|
                0 <= j < i ==> (#[trigger] out@[j]).0 == found@[j].proof && out@[j].1
                    == found@[j].hash,
        decreases found@.len() - i,
    {
        let h = found[i];
        out.push((h.proof, h.hash));
        i += 1;
    }
    Ok(out)
}

/// High-level Equi-X solver over a fixed seed and difficulty.
pub struct EquixSolver<'a> {
    pub seed: &'a [u8],
    pub bits: u32,
}

impl<'a> EquixSolver<'a> {
    /// A solver for this seed and difficulty.
    pub fn new(seed: &'a [u8], bits: u32) -> (r: Self)
        ensures
            r.seed@ == seed@,
            r.bits == bits,
    {
        EquixSolver { seed, bits }
    }

    /// Collect hits as configured.
    pub fn solve_hits(&self, cfg: &EquixSolveConfig) -> (r: Result<Vec<EquixHit>, String>)
        ensures
            cfg.threads == 0 || cfg.hits == 0 ==> r is Err,
            cfg.threads >= 1 && cfg.hits >= 1 ==> match spec_collect_hits(
                self.seed@,
                self.bits,
                cfg.start_work_nonce,
                cfg.hits as nat,
            ) {
                Some(s) => {
                    &&& r matches Ok(v)
                    &&& v@.len() == s.len()
                    &&& forall|i: int|
                        0 <= i < s.len() ==> hit_matches(self.seed@, self.bits, #[trigger] v@[i], s[i])
                },
                None => r is Err,
            },
    {
        equix_solve_parallel_hits_cfg(self.seed, self.bits, cfg)
    }

    /// Collect hits and package them as a bundle under `base_tag`:
    /// the bundle's proofs are exactly the collected hits' proofs.
    pub fn solve_bundle(&self, cfg: &EquixSolveConfig, base_tag: [u8; 32]) -> (r: Result<
        crate::equix::bundle::EquixProofBundle,
        String,
    >)
        ensures
            r matches Ok(b) ==> b.base_tag == base_tag,
            cfg.threads >= 1 && cfg.hits >= 1 ==> match spec_collect_hits(
                self.seed@,
                self.bits,
                cfg.start_work_nonce,
                cfg.hits as nat,
            ) {
                Some(s) => {
                    &&& r matches Ok(b)
                    &&& b.base_tag == base_tag
                    &&& b.proofs@.len() == s.len()
                    &&& forall|i: int|
                        0 <= i < s.len() ==> (#[trigger] b.proofs@[i]).work_nonce == s[i].0
                            && b.proofs@[i].solution.0 == s[i].1
                },
                None => r is Err,
            },
    {
        let found = match self.solve_hits(cfg) {
            Ok(v) => v,
            Err(e) => {
                return Err(e);
            },
        };
        proof {
            match spec_collect_hits(self.seed@, self.bits, cfg.start_work_nonce, cfg.hits as nat) {
                Some(s) => {
                    assert forall|i: int| 0 <= i < found@.len() implies (equix_accepts(
                        spec_equix_challenge(self.seed@, (#[trigger] found@[i]).proof.work_nonce),
                        found@[i].proof.solution.0@,
                    ) && spec_meets_bits(
                        sha256_of(found@[i].proof.solution.0@)@,
                        self.bits,
                    )) by {
                        assert(hit_matches(self.seed@, self.bits, found@[i], s[i]));
                    }
                },
                None => {},
            }
        }
        match equix_solve_bundle(self.seed, self.bits, cfg, base_tag, found) {
            Ok(b) => {
                proof {
                    match spec_collect_hits(
                        self.seed@,
                        self.bits,
                        cfg.start_work_nonce,
                        cfg.hits as nat,
                    ) {
                        Some(s) => {
                            assert forall|i: int|
                                0 <= i < s.len() implies ((#[trigger] b.proofs@[i]).work_nonce
                                == s[i].0 && b.proofs@[i].solution.0 == s[i].1) by {
                                assert(b.proofs@[i] == found@[i].proof);
                                assert(hit_matches(self.seed@, self.bits, found@[i], s[i]));
                            }
                        },
                        None => {},
                    }
                }
                Ok(b)
            },
            Err(e) => Err(e),
        }
    }
}

/// Build a bundle from already-found hits, re-checking each against the
/// seed and difficulty.
pub fn equix_solve_bundle(
    seed: &[u8],
    bits: u32,
    cfg: &EquixSolveConfig,
    base_tag: [u8; 32],
    found: Vec<EquixHit>,
) -> (r: Result<crate::equix::bundle::EquixProofBundle, String>)
    ensures
        r matches Ok(b) ==> {
            &&& b.base_tag == base_tag
            &&& b.proofs@.len() == found@.len()
            &&& forall|i: int| 0 <= i < found@.len() ==> b.proofs@[i] == (#[trigger] found@[i]).proof
            &&& forall|i: int|
                0 <= i < found@.len() ==> equix_accepts(
                    spec_equix_challenge(seed@, (#[trigger] found@[i]).proof.work_nonce),
                    found@[i].proof.solution.0@,
                ) && spec_meets_bits(sha256_of(found@[i].proof.solution.0@)@, bits)
        },
        (forall|i: int|
            0 <= i < found@.len() ==> equix_accepts(
                spec_equix_challenge(seed@, (#[trigger] found@[i]).proof.work_nonce),
                found@[i].proof.solution.0@,
            ) && spec_meets_bits(sha256_of(found@[i].proof.solution.0@)@, bits)) ==> r is Ok,
{
    let _ = cfg;
    let mut proofs: Vec<EquixProof> = Vec::new();
    let mut i: usize = 0;
    while i < found.len()
        invariant
            0 <= i <= found@.len(),
            proofs@.len() == i,
            forall|j: int| 0 <= j < i ==> proofs@[j] == (#[trigger] found@[j]).proof,
            forall|j: int|
                0 <= j < i ==> equix_accepts(
                    spec_equix_challenge(seed@, (#[trigger] found@[j]).proof.work_nonce),
                    found@[j].proof.solution.0@,
                ) && spec_meets_bits(sha256_of(found@[j].proof.solution.0@)@, bits),
        decreases found@.len() - i,
    {
        let h = &found[i];
        let ok = match equix_check_bits(seed, &h.proof, bits) {
            Ok(b) => b,
            Err(e) => {
                return Err(e);
            },
        };
        if !ok {
            return Err("internal error: hit does not satisfy bits".to_owned());
        }
        proofs.push(found[i].proof);
        i += 1;
    }
    Ok(crate::equix::bundle::EquixProofBundle { base_tag, proofs })
}

/// The one difficulty interpretation Equi-X backends use.
pub fn equix_difficulty_mode() -> (r: DifficultyMode)
    ensures
        r == DifficultyMode::LeadingZeroBits,
{
    DifficultyMode::LeadingZeroBits
}

} // verus!
