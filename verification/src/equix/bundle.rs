//! Seed-based proof bundles with derivable replay tags.

use crate::difficulty::spec_meets_bits;
use crate::equix::primitive::equix_accepts;
use crate::equix::solver::{equix_check_bits, spec_equix_challenge, spec_verify_outcome};
use crate::equix::types::EquixProof;
use crate::hashing::{sha256_hash32, sha256_of};
use crate::types::bytes16_eq;
use vstd::bytes::{spec_u64_to_le_bytes, u64_to_le_bytes};
use vstd::prelude::*;

verus! {

/// A bundle of seed-based Equi-X proofs along with a base tag for
/// replay protection. A server can store only the base tag: the
/// remaining tags derive from it deterministically.
#[derive(Clone, Debug, PartialEq, Eq, Hash)]
pub struct EquixProofBundle {
    pub base_tag: [u8; 32],
    pub proofs: Vec<EquixProof>,
}

/// Two proofs collide when both the work nonce and the solution bytes
/// agree.
pub open spec fn same_pair(a: EquixProof, b: EquixProof) -> bool {
    a.work_nonce == b.work_nonce && a.solution.0 == b.solution.0
}

impl EquixProofBundle {
    /// Verify every proof against the seed and difficulty, rejecting
    /// duplicate `(work_nonce, solution)` entries. Returns one flag per
    /// proof: whether its difficulty hash meets `bits`.
    pub fn verify_all(&self, seed: &[u8], bits: u32) -> (r: Result<Vec<bool>, String>)
        ensures
            r matches Ok(v) ==> {
                &&& v@.len() == self.proofs@.len()
                &&& forall|i: int|
                    0 <= i < self.proofs@.len() ==> v@[i] == spec_meets_bits(
                        sha256_of((#[trigger] self.proofs@[i]).solution.0@)@,
                        bits,
                    )
                &&& forall|i: int, j: int|
                    0 <= i < j < self.proofs@.len() ==> !same_pair(
                        #[trigger] self.proofs@[i],
                        #[trigger] self.proofs@[j],
                    )
                &&& forall|i: int|
                    0 <= i < self.proofs@.len() ==> equix_accepts(
                        spec_equix_challenge(seed@, (#[trigger] self.proofs@[i]).work_nonce),
                        self.proofs@[i].solution.0@,
                    )
            },
            ((forall|i: int, j: int|
                0 <= i < j < self.proofs@.len() ==> !same_pair(
                    #[trigger] self.proofs@[i],
                    #[trigger] self.proofs@[j],
                )) && (forall|i: int|
                0 <= i < self.proofs@.len() ==> equix_accepts(
                    spec_equix_challenge(seed@, (#[trigger] self.proofs@[i]).work_nonce),
                    self.proofs@[i].solution.0@,
                ))) ==> r is Ok,
    {
        let mut out: Vec<bool> = Vec::new();
        let mut i: usize = 0;
        while i < self.proofs.len()
            invariant
                0 <= i <= self.proofs@.len(),
                out@.len() == i,
                forall|m: int|
                    0 <= m < i ==> out@[m] == spec_meets_bits(
                        sha256_of((#[trigger] self.proofs@[m]).solution.0@)@,
                        bits,
                    ),
                forall|a: int, b: int|
                    0 <= a < b < i ==> !same_pair(
                        #[trigger] self.proofs@[a],
                        #[trigger] self.proofs@[b],
                    ),
                forall|m: int|
                    0 <= m < i ==> equix_accepts(
                        spec_equix_challenge(seed@, (#[trigger] self.proofs@[m]).work_nonce),
                        self.proofs@[m].solution.0@,
                    ),
            decreases self.proofs@.len() - i,
        {
            let p = self.proofs[i];
            let mut j: usize = 0;
            while j < i
                invariant
                    0 <= j <= i < self.proofs@.len(),
                    p == self.proofs@[i as int],
                    forall|m: int|
                        0 <= m < j ==> !same_pair(#[trigger] self.proofs@[m], self.proofs@[i as int]),
                decreases i - j,
            {
                let q = self.proofs[j];
                if q.work_nonce == p.work_nonce && bytes16_eq(&q.solution.0, &p.solution.0) {
                    return Err("duplicate EquiX proof in bundle".to_owned());
                }
                j += 1;
            }
            let ok = match equix_check_bits(seed, &p, bits) {
                Ok(b) => b,
                Err(e) => {
                    proof {
                        assert(spec_verify_outcome(seed@, p) is None);
                    }
                    return Err(e);
                },
            };
            out.push(ok);
            i += 1;
        }
        Ok(out)
    }

    /// Derived replay tags for all proofs after the first; the server
    /// can store the base tag alone.
    pub fn derived_tags(&self) -> (r: Vec<[u8; 32]>)
        ensures
            self.proofs@.len() <= 1 ==> r@.len() == 0,
            self.proofs@.len() > 1 ==> r@.len() == self.proofs@.len() - 1 && forall|i: int|
                0 <= i < r@.len() ==> r@[i] == sha256_of(
                    spec_replay_message(self.base_tag@, (i + 1) as u64),
                ),
    {
        if self.proofs.len() <= 1 {
            return Vec::new();
        }
        derive_replay_tags(&self.base_tag, self.proofs.len() - 1)
    }
}

/// Domain tag for replay-tag derivation (the bytes of
/// `rspow:replay:v1|`).
pub open spec fn replay_tag() -> Seq<u8> {
    seq![114u8, 115, 112, 111, 119, 58, 114, 101, 112, 108, 97, 121, 58, 118, 49, 124]
}

/// The bytes hashed into the replay tag of index `idx`: the domain tag,
/// the base tag, then the index little-endian.
pub open spec fn spec_replay_message(base_tag: Seq<u8>, idx: u64) -> Seq<u8> {
    replay_tag() + base_tag + spec_u64_to_le_bytes(idx)
}

/// Derive `count` replay tags from a base tag, for indexes 1 through
/// `count`: SHA-256 of the tagged base and index.
pub fn derive_replay_tags(base_tag: &[u8; 32], count: usize) -> (r: Vec<[u8; 32]>)
    requires
        count < usize::MAX,
    ensures
        r@.len() == count,
        forall|i: int|
            0 <= i < count ==> r@[i] == sha256_of(spec_replay_message(base_tag@, (i + 1) as u64)),
{
    let tag: [u8; 16] = [114, 115, 112, 111, 119, 58, 114, 101, 112, 108, 97, 121, 58, 118, 49, 124];
    let mut v: Vec<[u8; 32]> = Vec::new();
    let mut i: usize = 1;
    while i <= count
        invariant
            1 <= i <= count + 1,
            count < usize::MAX,
            tag@ =~= replay_tag(),
            v@.len() == i - 1,
            forall|m: int|
                0 <= m < v@.len() ==> v@[m] == sha256_of(
                    spec_replay_message(base_tag@, (m + 1) as u64),
                ),
        decreases count + 1 - i,
    {
        let mut msg: Vec<u8> = Vec::new();
        msg.extend_from_slice(tag.as_slice());
        msg.extend_from_slice(base_tag.as_slice());
        let idx_bytes = u64_to_le_bytes(i as u64);
        msg.extend_from_slice(idx_bytes.as_slice());
        proof {
            assert(msg@ =~= spec_replay_message(base_tag@, i as u64));
        }
        v.push(sha256_hash32(msg.as_slice()));
        i += 1;
    }
    v
}

} // verus!
