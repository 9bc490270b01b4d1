//! The Equi-X solver engine.
//!
//! The engine searches a monotonic id space: each id derives a
//! challenge, the Equi-X primitive enumerates that challenge's
//! solutions, and the first solution whose BLAKE3 digest meets the
//! difficulty yields a proof. Challenges that fail Equi-X construction
//! are skipped without counting as failures. The search is a pure
//! function of `(master, bits, start id, proofs needed)`, so solving is
//! deterministic and resumable.

use crate::challenge::{derive_challenge, spec_derive_challenge};
use crate::difficulty::spec_meets_bits;
use crate::equix::primitive::{equix_accepts, equix_solutions, equix_solutions_of};
use crate::error::Error;
use crate::hashing::blake3_of;
use crate::pow::PowEngine;
use crate::types::{
    bundle_ok, ids_strictly_increasing, proof_valid, spec_verify_strict, Proof, ProofBundle,
    ProofConfig,
};
use std::sync::atomic::{AtomicU64, Ordering};
use std::sync::Arc;
use vstd::prelude::*;

verus! {

/// The first solution in a list whose difficulty hash meets `bits`,
/// scanning from position `i`.
pub open spec fn spec_first_hit(sols: Seq<[u8; 16]>, bits: u32, i: int) -> Option<[u8; 16]>
    decreases sols.len() - i,
{
    if i < 0 || i >= sols.len() {
        None
    } else if spec_meets_bits(blake3_of(sols[i]@)@, bits) {
        Some(sols[i])
    } else {
        spec_first_hit(sols, bits, i + 1)
    }
}

/// What solving one challenge yields: `None` when Equi-X construction
/// fails or no solution meets the difficulty, otherwise the first
/// solution that does.
pub open spec fn spec_solve_single(challenge: Seq<u8>, bits: u32) -> Option<[u8; 16]> {
    match equix_solutions_of(challenge) {
        Some(sols) => spec_first_hit(sols, bits, 0),
        None => None,
    }
}

/// What solving id `id` under `master` yields.
pub open spec fn spec_hit_at(master: Seq<u8>, bits: u32, id: u64) -> Option<[u8; 16]> {
    spec_solve_single(spec_derive_challenge(master, id)@, bits)
}

/// The proof published for a hit at `id`.
pub open spec fn spec_proof_at(master: Seq<u8>, id: u64, sol: [u8; 16]) -> Proof {
    Proof { id, challenge: spec_derive_challenge(master, id), solution: sol }
}

/// The proofs found by walking ids upward from `id` until `needed`
/// hits are collected: ids without a qualifying solution are consumed
/// without producing a proof. `None` when the id space runs out first.
pub open spec fn spec_solve_from(master: Seq<u8>, bits: u32, id: u64, needed: nat) -> Option<
    Seq<Proof>,
>
    decreases needed, u64::MAX - id,
{
    if needed == 0 {
        Some(Seq::empty())
    } else {
        match spec_hit_at(master, bits, id) {
            Some(sol) => {
                if needed == 1 {
                    Some(seq![spec_proof_at(master, id, sol)])
                } else if id == u64::MAX {
                    None
                } else {
                    match spec_solve_from(master, bits, (id + 1) as u64, (needed - 1) as nat) {
                        Some(rest) => Some(seq![spec_proof_at(master, id, sol)] + rest),
                        None => None,
                    }
                }
            },
            None => {
                if id == u64::MAX {
                    None
                } else {
                    spec_solve_from(master, bits, (id + 1) as u64, needed)
                }
            },
        }
    }
}

/// Solve one challenge: enumerate its Equi-X solutions and return the
/// first whose BLAKE3 digest meets `bits`. A challenge that fails
/// Equi-X construction yields `Ok(None)`, as does one with no
/// qualifying solution.
pub fn solve_single(challenge: [u8; 32], bits: u32) -> (r: Result<Option<[u8; 16]>, Error>)
    ensures
        r == Ok::<Option<[u8; 16]>, Error>(spec_solve_single(challenge@, bits)),
        match spec_solve_single(challenge@, bits) {
            Some(sol) => equix_accepts(challenge@, sol@) && spec_meets_bits(
                blake3_of(sol@)@,
                bits,
            ),
            None => true,
        },
{
    let sols = match equix_solutions(challenge.as_slice()) {
        Some(sols) => sols,
        None => {
            return Ok(None);
        },
    };
    let ghost gsols = sols@;
    let mut i: usize = 0;
    while i < sols.len()
        invariant
            0 <= i <= sols@.len(),
            sols@ == gsols,
            equix_solutions_of(challenge@) == Some(gsols),
            forall|j: int| 0 <= j < gsols.len() ==> equix_accepts(challenge@, gsols[j]@),
            spec_first_hit(gsols, bits, 0) == spec_first_hit(gsols, bits, i as int),
        decreases sols@.len() - i,
    {
        let sol = sols[i];
        let hash = crate::hashing::blake3_hash32(sol.as_slice());
        if crate::difficulty::leading_zero_bits(&hash) >= bits {
            proof {
                assert(spec_first_hit(gsols, bits, i as int) == Some(sol));
            }
            return Ok(Some(sol));
        }
        proof {
            assert(spec_first_hit(gsols, bits, i as int) == spec_first_hit(
                gsols,
                bits,
                i + 1,
            ));
        }
        i += 1;
    }
    Ok(None)
}

/// Search ids upward from `start_proof_id` until the bundle would hold
/// `target_total` proofs, `current_len` of which already exist. The
/// result is exactly what `spec_solve_from` names, so the search is
/// deterministic; each returned proof is valid for `(master, bits)`
/// and ids strictly increase from `start_proof_id`. Accepted proofs
/// bump the shared progress counter. `threads` only shapes scheduling,
/// never the result, and must come validated by the caller.
pub fn solve_range(
    master_challenge: [u8; 32],
    bits: u32,
    threads: usize,
    start_proof_id: u64,
    current_len: usize,
    target_total: usize,
    progress: &Arc<AtomicU64>,
) -> (r: Result<Vec<Proof>, Error>)
    ensures
        current_len > target_total ==> r matches Err(Error::InvalidConfig(_)),
        current_len <= target_total ==> match spec_solve_from(
            master_challenge@,
            bits,
            start_proof_id,
            (target_total - current_len) as nat,
        ) {
            Some(s) => {
                &&& r matches Ok(v) && v@ == s
                &&& s.len() == target_total - current_len
                &&& forall|i: int|
                    0 <= i < s.len() ==> proof_valid(master_challenge@, bits, #[trigger] s[i])
                &&& ids_strictly_increasing(s)
                &&& forall|i: int| 0 <= i < s.len() ==> (#[trigger] s[i]).id >= start_proof_id
            },
            None => r == Err::<Vec<Proof>, Error>(Error::ChannelClosed),
        },
{
    if current_len > target_total {
        return Err(Error::InvalidConfig("current proof count exceeds required proofs".to_owned()));
    }
    let needed = target_total - current_len;
    let ghost gneeded = needed as nat;
    let mut proofs: Vec<Proof> = Vec::new();
    let mut id: u64 = start_proof_id;
    let _ = threads;
    while proofs.len() < needed
        invariant
            proofs@.len() <= gneeded,
            gneeded == needed,
            current_len <= target_total,
            needed == target_total - current_len,
            start_proof_id <= id,
            forall|i: int|
                0 <= i < proofs@.len() ==> proof_valid(master_challenge@, bits, #[trigger] proofs@[i]),
            forall|i: int| 0 <= i < proofs@.len() ==> (#[trigger] proofs@[i]).id >= start_proof_id,
            forall|i: int| 0 <= i < proofs@.len() ==> (#[trigger] proofs@[i]).id <= id,
            proofs@.len() < gneeded ==> forall|i: int|
                0 <= i < proofs@.len() ==> (#[trigger] proofs@[i]).id < id,
            ids_strictly_increasing(proofs@),
            match spec_solve_from(master_challenge@, bits, id, (gneeded - proofs@.len()) as nat) {
                Some(rest) => spec_solve_from(master_challenge@, bits, start_proof_id, gneeded)
                    == Some(proofs@ + rest),
                None => spec_solve_from(master_challenge@, bits, start_proof_id, gneeded) is None,
            },
        decreases gneeded - proofs@.len(), u64::MAX - id,
    {
        let ghost remaining = (gneeded - proofs@.len()) as nat;
        let ghost pre = proofs@;
        let challenge = derive_challenge(master_challenge, id);
        let hit = match solve_single(challenge, bits) {
            Ok(h) => h,
            Err(e) => {
                return Err(e);
            },
        };
        proof {
            assert(challenge@ == spec_derive_challenge(master_challenge@, id)@);
            assert(hit == spec_hit_at(master_challenge@, bits, id));
        }
        match hit {
            Some(solution) => {
                let p = Proof { id, challenge, solution };
                proof {
                    assert(p == spec_proof_at(master_challenge@, id, solution));
                    assert(proof_valid(master_challenge@, bits, p));
                }
                proofs.push(p);
                progress.fetch_add(1, Ordering::SeqCst);
                proof {
                    assert(proofs@ == pre.push(p));
                    if remaining == 1 {
                        assert(spec_solve_from(master_challenge@, bits, id, remaining) == Some(
                            seq![p],
                        ));
                        assert(pre + seq![p] =~= proofs@);
                        assert(spec_solve_from(master_challenge@, bits, id, 0nat) == Some(
                            Seq::<Proof>::empty(),
                        ));
                        assert(proofs@ + Seq::<Proof>::empty() =~= proofs@);
                    }
                }
                if proofs.len() < needed {
                    proof {
                        assert(remaining > 1);
                        if id == u64::MAX {
                            assert(spec_solve_from(master_challenge@, bits, id, remaining)
                                is None);
                        }
                    }
                    if id == u64::MAX {
                        return Err(Error::ChannelClosed);
                    }
                    proof {
                        match spec_solve_from(
                            master_challenge@,
                            bits,
                            (id + 1) as u64,
                            (remaining - 1) as nat,
                        ) {
                            Some(rest) => {
                                assert(spec_solve_from(master_challenge@, bits, id, remaining)
                                    == Some(seq![p] + rest));
                                assert(pre + (seq![p] + rest) =~= proofs@ + rest);
                            },
                            None => {},
                        }
                    }
                    id += 1;
                }
            },
            None => {
                proof {
                    if id == u64::MAX {
                        assert(spec_solve_from(master_challenge@, bits, id, remaining) is None);
                    }
                }
                if id == u64::MAX {
                    return Err(Error::ChannelClosed);
                }
                proof {
                    assert(spec_solve_from(master_challenge@, bits, id, remaining)
                        == spec_solve_from(master_challenge@, bits, (id + 1) as u64, remaining));
                }
                id += 1;
            },
        }
    }
    proof {
        assert(spec_solve_from(master_challenge@, bits, id, 0nat) == Some(Seq::<Proof>::empty()));
        assert(proofs@ + Seq::<Proof>::empty() =~= proofs@);
    }
    Ok(proofs)
}

/// The multi-threaded Equi-X solver engine configuration. Workers walk
/// a shared monotonic id space; here the walk is performed as the
/// equivalent sequential search, so the engine's output is the
/// deterministic function named by `spec_solve_from`.
#[derive(Debug)]
pub struct EquixEngine {
    /// Required number of leading zero bits in `BLAKE3(solution)`.
    pub bits: u32,
    /// Configured worker slots; shapes scheduling, never results.
    pub threads: usize,
    /// Number of proofs a solved bundle must hold.
    pub required_proofs: usize,
    /// Count of accepted proofs, monotonic, observable by watchers.
    pub progress: Arc<AtomicU64>,
}

/// A valid engine configuration: every count at least one.
pub open spec fn spec_engine_valid(e: EquixEngine) -> bool {
    &&& e.bits >= 1
    &&& e.threads >= 1
    &&& e.required_proofs >= 1
}

impl EquixEngine {
    /// Reject an out-of-range configuration.
    pub fn validate(&self) -> (r: Result<(), Error>)
        ensures
            r is Ok <==> spec_engine_valid(*self),
            r is Err ==> r matches Err(Error::InvalidConfig(_)),
    {
        if self.bits == 0 {
            return Err(Error::InvalidConfig("bits must be > 0".to_owned()));
        }
        if self.threads == 0 {
            return Err(Error::InvalidConfig("threads must be >= 1".to_owned()));
        }
        if self.required_proofs == 0 {
            return Err(Error::InvalidConfig("required_proofs must be >= 1".to_owned()));
        }
        Ok(())
    }

    /// Update the engine's target number of proofs, for fresh solves
    /// and future resumes alike.
    pub fn set_required_proofs(&mut self, required_proofs: usize) -> (r: Result<(), Error>)
        ensures
            required_proofs == 0 ==> (r matches Err(Error::InvalidConfig(_))) && *final(self)
                == *old(self),
            required_proofs >= 1 ==> r is Ok && final(self).required_proofs == required_proofs
                && final(self).bits == old(self).bits && final(self).threads == old(self).threads
                && final(self).progress == old(self).progress,
    {
        if required_proofs == 0 {
            return Err(Error::InvalidConfig("required_proofs must be >= 1".to_owned()));
        }
        self.required_proofs = required_proofs;
        Ok(())
    }
}

/// Builder-style validated construction of an [`EquixEngine`].
#[derive(Debug)]
pub struct EquixEngineBuilder {
    pub bits: Option<u32>,
    pub threads: Option<usize>,
    pub required_proofs: Option<usize>,
    pub progress: Option<Arc<AtomicU64>>,
}

impl Default for EquixEngineBuilder {
    /// An empty builder: every field still to be provided.
    fn default() -> (r: Self)
        ensures
            r.bits is None,
            r.threads is None,
            r.required_proofs is None,
            r.progress is None,
    {
        EquixEngineBuilder { bits: None, threads: None, required_proofs: None, progress: None }
    }
}

impl EquixEngineBuilder {
    /// Set the difficulty in leading zero bits.
    pub fn bits(self, bits: u32) -> (r: Self)
        ensures
            r.bits == Some(bits),
            r.threads == self.threads,
            r.required_proofs == self.required_proofs,
            r.progress == self.progress,
    {
        EquixEngineBuilder {
            bits: Some(bits),
            threads: self.threads,
            required_proofs: self.required_proofs,
            progress: self.progress,
        }
    }

    /// Set the number of worker slots.
    pub fn threads(self, threads: usize) -> (r: Self)
        ensures
            r.threads == Some(threads),
            r.bits == self.bits,
            r.required_proofs == self.required_proofs,
            r.progress == self.progress,
    {
        EquixEngineBuilder {
            bits: self.bits,
            threads: Some(threads),
            required_proofs: self.required_proofs,
            progress: self.progress,
        }
    }

    /// Set the target number of proofs.
    pub fn required_proofs(self, required_proofs: usize) -> (r: Self)
        ensures
            r.required_proofs == Some(required_proofs),
            r.bits == self.bits,
            r.threads == self.threads,
            r.progress == self.progress,
    {
        EquixEngineBuilder {
            bits: self.bits,
            threads: self.threads,
            required_proofs: Some(required_proofs),
            progress: self.progress,
        }
    }

    /// Set the shared progress counter.
    pub fn progress(self, progress: Arc<AtomicU64>) -> (r: Self)
        ensures
            r.progress == Some(progress),
            r.bits == self.bits,
            r.threads == self.threads,
            r.required_proofs == self.required_proofs,
    {
        EquixEngineBuilder {
            bits: self.bits,
            threads: self.threads,
            required_proofs: self.required_proofs,
            progress: Some(progress),
        }
    }

    /// Whether every field is provided and in range.
    pub open spec fn spec_builder_valid(self) -> bool {
        &&& self.bits matches Some(b) && b >= 1
        &&& self.threads matches Some(t) && t >= 1
        &&& self.required_proofs matches Some(p) && p >= 1
        &&& self.progress is Some
    }

    /// Reject a builder with a missing or out-of-range field.
    pub fn validate(&self) -> (r: Result<(), Error>)
        ensures
            r is Ok <==> self.spec_builder_valid(),
            r is Err ==> r matches Err(Error::InvalidConfig(_)),
    {
        let bits_ok = match self.bits {
            Some(b) => b >= 1,
            None => false,
        };
        if !bits_ok {
            return Err(Error::InvalidConfig("bits must be > 0".to_owned()));
        }
        let threads_ok = match self.threads {
            Some(t) => t >= 1,
            None => false,
        };
        if !threads_ok {
            return Err(Error::InvalidConfig("threads must be >= 1".to_owned()));
        }
        let required_ok = match self.required_proofs {
            Some(p) => p >= 1,
            None => false,
        };
        if !required_ok {
            return Err(Error::InvalidConfig("required_proofs must be >= 1".to_owned()));
        }
        if self.progress.is_none() {
            return Err(Error::InvalidConfig("progress must be provided".to_owned()));
        }
        Ok(())
    }

    /// Build an engine from the provided fields, failing when one is
    /// missing. Zero values pass here; use `build_validated` to reject
    /// them too.
    pub fn build(self) -> (r: Result<EquixEngine, Error>)
        ensures
            r is Ok <==> (self.bits is Some && self.threads is Some && self.required_proofs
                is Some && self.progress is Some),
            r is Err ==> r matches Err(Error::InvalidConfig(_)),
            r matches Ok(e) ==> Some(e.bits) == self.bits && Some(e.threads) == self.threads
                && Some(e.required_proofs) == self.required_proofs && Some(e.progress)
                == self.progress,
    {
        let EquixEngineBuilder { bits, threads, required_proofs, progress } = self;
        let bits = match bits {
            Some(b) => b,
            None => {
                return Err(Error::InvalidConfig("bits must be provided".to_owned()));
            },
        };
        let threads = match threads {
            Some(t) => t,
            None => {
                return Err(Error::InvalidConfig("threads must be provided".to_owned()));
            },
        };
        let required_proofs = match required_proofs {
            Some(p) => p,
            None => {
                return Err(Error::InvalidConfig("required_proofs must be provided".to_owned()));
            },
        };
        let progress = match progress {
            Some(p) => p,
            None => {
                return Err(Error::InvalidConfig("progress must be provided".to_owned()));
            },
        };
        Ok(EquixEngine { bits, threads, required_proofs, progress })
    }

    /// Validate, then build: the result is a valid engine.
    pub fn build_validated(self) -> (r: Result<EquixEngine, Error>)
        ensures
            r is Ok <==> self.spec_builder_valid(),
            r is Err ==> r matches Err(Error::InvalidConfig(_)),
            r matches Ok(e) ==> Some(e.bits) == self.bits && Some(e.threads) == self.threads
                && Some(e.required_proofs) == self.required_proofs && Some(e.progress)
                == self.progress && spec_engine_valid(e),
    {
        match self.validate() {
            Ok(()) => {},
            Err(e) => {
                return Err(e);
            },
        }
        self.build()
    }
}

/// Where a resumed search starts: one past the largest existing id, or
/// id 0 for an empty bundle. `None` when the id space is exhausted.
pub open spec fn spec_resume_start(b: ProofBundle) -> Option<u64> {
    if b.proofs@.len() == 0 {
        Some(0u64)
    } else if b.proofs@.last().id == u64::MAX {
        None
    } else {
        Some((b.proofs@.last().id + 1) as u64)
    }
}

/// Append already-sorted proofs, every id above everything present.
fn insert_all(bundle: &mut ProofBundle, new_proofs: &Vec<Proof>) -> (r: Result<(), Error>)
    requires
        ids_strictly_increasing(old(bundle).proofs@),
        ids_strictly_increasing(new_proofs@),
        forall|i: int, j: int|
            0 <= i < old(bundle).proofs@.len() && 0 <= j < new_proofs@.len() ==> (#[trigger] old(
                bundle,
            ).proofs@[i]).id < (#[trigger] new_proofs@[j]).id,
    ensures
        r is Ok,
        final(bundle).proofs@ == old(bundle).proofs@ + new_proofs@,
        final(bundle).config == old(bundle).config,
        final(bundle).master_challenge == old(bundle).master_challenge,
{
    let ghost orig = old(bundle).proofs@;
    let mut i: usize = 0;
    while i < new_proofs.len()
        invariant
            0 <= i <= new_proofs@.len(),
            bundle.proofs@ == orig + new_proofs@.subrange(0, i as int),
            bundle.config == old(bundle).config,
            bundle.master_challenge == old(bundle).master_challenge,
            ids_strictly_increasing(orig),
            ids_strictly_increasing(new_proofs@),
            ids_strictly_increasing(bundle.proofs@),
            forall|a: int, b: int|
                0 <= a < orig.len() && 0 <= b < new_proofs@.len() ==> (#[trigger] orig[a]).id < (
                #[trigger] new_proofs@[b]).id,
        decreases new_proofs@.len() - i,
    {
        let ghost pre = bundle.proofs@;
        let p = new_proofs[i];
        proof {
            assert forall|m: int| 0 <= m < pre.len() implies (#[trigger] pre[m]).id < p.id by {
                if m < orig.len() {
                    assert(pre[m] == orig[m]);
                } else {
                    assert(pre[m] == new_proofs@[m - orig.len()]);
                }
            }
        }
        match bundle.insert_proof(p) {
            Ok(()) => {},
            Err(e) => {
                proof {
                    assert(false);
                }
                return Err(Error::SolverFailed(e.message().to_owned()));
            },
        }
        proof {
            assert(bundle.proofs@ == pre.push(p));
            assert((orig + new_proofs@.subrange(0, i as int)).push(p) =~= orig
                + new_proofs@.subrange(0, i + 1));
        }
        i += 1;
    }
    proof {
        assert(new_proofs@.subrange(0, new_proofs@.len() as int) =~= new_proofs@);
    }
    Ok(())
}

impl EquixEngine {
    /// Solve a fresh bundle: search ids upward from 0 until
    /// `required_proofs` proofs meeting `bits` are found. The result is
    /// the deterministic function of `(master, bits, required_proofs)`
    /// named by `spec_solve_from`, and it always verifies strictly.
    pub fn solve_bundle(&mut self, master_challenge: [u8; 32]) -> (r: Result<ProofBundle, Error>)
        ensures
            *final(self) == *old(self),
            !spec_engine_valid(*old(self)) ==> (r matches Err(Error::InvalidConfig(_))),
            spec_engine_valid(*old(self)) ==> match spec_solve_from(
                master_challenge@,
                old(self).bits,
                0,
                old(self).required_proofs as nat,
            ) {
                Some(s) => {
                    &&& r matches Ok(b)
                    &&& b.proofs@ == s
                    &&& b.master_challenge == master_challenge
                    &&& b.config == (ProofConfig { bits: old(self).bits })
                    &&& bundle_ok(b, old(self).bits, old(self).required_proofs as int)
                    &&& spec_verify_strict(b, old(self).bits, old(self).required_proofs as int)
                        is Ok
                },
                None => r == Err::<ProofBundle, Error>(Error::ChannelClosed),
            },
    {
        match self.validate() {
            Ok(()) => {},
            Err(e) => {
                return Err(e);
            },
        }
        self.progress.store(0, Ordering::SeqCst);
        let mut bundle = ProofBundle {
            proofs: Vec::new(),
            config: ProofConfig { bits: self.bits },
            master_challenge,
        };
        let new_proofs = match solve_range(
            master_challenge,
            self.bits,
            self.threads,
            0,
            0,
            self.required_proofs,
            &self.progress,
        ) {
            Ok(v) => v,
            Err(e) => {
                return Err(e);
            },
        };
        match insert_all(&mut bundle, &new_proofs) {
            Ok(()) => {},
            Err(e) => {
                return Err(e);
            },
        }
        proof {
            assert(bundle.proofs@ =~= new_proofs@);
            crate::types::lemma_verify_strict_ok_iff_bundle_ok(
                bundle,
                self.bits,
                self.required_proofs as int,
            );
        }
        Ok(bundle)
    }

    /// Resume an existing bundle up to the engine's target: the bundle
    /// must carry the engine's difficulty and verify strictly; the
    /// search then continues one past its largest id, so its proofs are
    /// kept unchanged and every new id lies above them.
    pub fn resume(&mut self, existing: ProofBundle) -> (r: Result<ProofBundle, Error>)
        ensures
            *final(self) == *old(self),
            !spec_engine_valid(*old(self)) ==> (r matches Err(Error::InvalidConfig(_))),
            spec_engine_valid(*old(self)) && existing.config.bits != old(self).bits ==> (r matches
                Err(Error::InvalidConfig(_))),
            spec_engine_valid(*old(self)) && existing.config.bits == old(self).bits && !(
            spec_verify_strict(
                existing,
                old(self).bits,
                existing.proofs@.len() as int,
            ) is Ok) ==> (r matches Err(Error::SolverFailed(_))),
            spec_engine_valid(*old(self)) && existing.config.bits == old(self).bits
                && spec_verify_strict(existing, old(self).bits, existing.proofs@.len() as int)
                is Ok ==> {
                if old(self).required_proofs < existing.proofs@.len() {
                    r matches Err(Error::InvalidConfig(_))
                } else if existing.proofs@.len() >= old(self).required_proofs {
                    r == Ok::<ProofBundle, Error>(existing)
                } else {
                    match spec_resume_start(existing) {
                        None => r == Err::<ProofBundle, Error>(Error::ChannelClosed),
                        Some(start) => match spec_solve_from(
                            existing.master_challenge@,
                            old(self).bits,
                            start,
                            (old(self).required_proofs - existing.proofs@.len()) as nat,
                        ) {
                            Some(s) => {
                                &&& r matches Ok(b)
                                &&& b.proofs@ == existing.proofs@ + s
                                &&& b.config == existing.config
                                &&& b.master_challenge == existing.master_challenge
                                &&& bundle_ok(b, old(self).bits, old(self).required_proofs as int)
                                &&& forall|i: int|
                                    0 <= i < s.len() ==> (#[trigger] s[i]).id >= start
                            },
                            None => r == Err::<ProofBundle, Error>(Error::ChannelClosed),
                        },
                    }
                }
            },
    {
        match self.validate() {
            Ok(()) => {},
            Err(e) => {
                return Err(e);
            },
        }
        if existing.config.bits != self.bits {
            return Err(Error::InvalidConfig("bundle difficulty does not match engine".to_owned()));
        }
        let n = existing.len();
        match existing.verify_strict(self.bits, n) {
            Ok(()) => {},
            Err(e) => {
                return Err(Error::SolverFailed(e.message().to_owned()));
            },
        }
        if self.required_proofs < n {
            return Err(Error::InvalidConfig("required_proofs must be >= existing proofs".to_owned()));
        }
        self.progress.store(n as u64, Ordering::SeqCst);
        if n >= self.required_proofs {
            return Ok(existing);
        }
        let start_proof_id: u64 = if n == 0 {
            0
        } else {
            let max_id = existing.proofs[n - 1].id;
            if max_id == u64::MAX {
                return Err(Error::ChannelClosed);
            }
            max_id + 1
        };
        let new_proofs = match solve_range(
            existing.master_challenge,
            self.bits,
            self.threads,
            start_proof_id,
            n,
            self.required_proofs,
            &self.progress,
        ) {
            Ok(v) => v,
            Err(e) => {
                return Err(e);
            },
        };
        let mut result = existing;
        proof {
            assert(bundle_ok(result, self.bits, n as int));
            assert forall|a: int, b: int|
                0 <= a < result.proofs@.len() && 0 <= b < new_proofs@.len() implies (
            #[trigger] result.proofs@[a]).id < (#[trigger] new_proofs@[b]).id by {
                assert(result.proofs@[a].id <= result.proofs@[result.proofs@.len() - 1].id);
                assert(new_proofs@[b].id >= start_proof_id);
            }
        }
        match insert_all(&mut result, &new_proofs) {
            Ok(()) => {},
            Err(e) => {
                return Err(e);
            },
        }
        proof {
            let s = new_proofs@;
            let whole = result.proofs@;
            assert forall|i: int|
                0 <= i < whole.len() implies proof_valid(
                result.master_challenge@,
                self.bits,
                #[trigger] whole[i],
            ) by {
                if i < n {
                    assert(whole[i] == existing.proofs@[i]);
                } else {
                    assert(whole[i] == s[i - n]);
                }
            }
            assert forall|i: int, j: int| 0 <= i < j < whole.len() implies whole[i].id
                < whole[j].id by {
                if j < n {
                } else if i >= n {
                    assert(whole[i] == s[i - n] && whole[j] == s[j - n]);
                } else {
                    assert(whole[i] == existing.proofs@[i] && whole[j] == s[j - n]);
                }
            }
            assert(bundle_ok(result, self.bits, self.required_proofs as int));
        }
        Ok(result)
    }
}

impl PowEngine for EquixEngine {
    type Bundle = ProofBundle;

    fn solve_bundle(&mut self, master_challenge: [u8; 32]) -> Result<ProofBundle, Error> {
        EquixEngine::solve_bundle(self, master_challenge)
    }

    fn resume(&mut self, existing: ProofBundle) -> Result<ProofBundle, Error> {
        EquixEngine::resume(self, existing)
    }
}

/// Law: solving is deterministic — the search result is a function of
/// the master challenge, difficulty, start id and target alone, so two
/// single-thread engines with equal difficulty and target return
/// identical bundles for one master.
pub proof fn lemma_solve_bundle_deterministic(e1: EquixEngine, e2: EquixEngine, master: [u8; 32])
    requires
        e1.bits == e2.bits,
        e1.required_proofs == e2.required_proofs,
        e1.threads == 1,
        e2.threads == 1,
    ensures
        spec_solve_from(master@, e1.bits, 0, e1.required_proofs as nat) == spec_solve_from(
            master@,
            e2.bits,
            0,
            e2.required_proofs as nat,
        ),
{
}

} // verus!
