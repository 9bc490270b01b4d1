//! The bundle data model: proofs, difficulty configuration, and bundles
//! with their insertion and strict-verification invariants.

use crate::challenge::{derive_challenge, spec_derive_challenge};
use crate::difficulty::{leading_zero_bits, lzb, spec_meets_bits};
use crate::equix::primitive::{equix_accepts, equix_verify};
use crate::error::VerifyError;
use crate::hashing::{blake3_hash32, blake3_of};
use crate::pow::{PowBundle, PowConfig, PowProof};
use vstd::prelude::*;

verus! {

broadcast use vstd::array::group_array_axioms;

/// A single proof: one answer within a bundle.
#[derive(Debug, Clone, Copy, PartialEq, Eq)]
pub struct Proof {
    /// Monotonic logical index within a bundle; selects the derived
    /// challenge this proof answers.
    pub id: u64,
    /// The Equi-X input derived from `(master, id)`.
    pub challenge: [u8; 32],
    /// An Equi-X solution for `challenge`.
    pub solution: [u8; 16],
}

/// Difficulty configuration of a bundle.
#[derive(Debug, Clone, Copy, PartialEq, Eq, Structural)]
pub struct ProofConfig {
    /// Required number of leading zero bits in `BLAKE3(solution)`.
    pub bits: u32,
}

/// A bundle of proofs sharing one master challenge and difficulty,
/// sorted by id ascending with no duplicate id.
#[derive(Debug, Clone, PartialEq, Eq)]
pub struct ProofBundle {
    pub proofs: Vec<Proof>,
    pub config: ProofConfig,
    pub master_challenge: [u8; 32],
}

/// A proof is valid for `(master, bits)`: its challenge is the one
/// derived for its id, its difficulty hash meets `bits`, and Equi-X
/// accepts its solution.
pub open spec fn proof_valid(master: Seq<u8>, bits: u32, p: Proof) -> bool {
    &&& p.challenge == spec_derive_challenge(master, p.id)
    &&& spec_meets_bits(blake3_of(p.solution@)@, bits)
    &&& equix_accepts(p.challenge@, p.solution@)
}

/// Ids strictly increase along a sequence of proofs.
pub open spec fn ids_strictly_increasing(s: Seq<Proof>) -> bool {
    forall|i: int, j: int| 0 <= i < j < s.len() ==> s[i].id < s[j].id
}

/// All invariants of a well-formed bundle of `count` proofs at
/// difficulty `bits`.
pub open spec fn bundle_ok(b: ProofBundle, bits: u32, count: int) -> bool {
    &&& b.proofs@.len() == count
    &&& ids_strictly_increasing(b.proofs@)
    &&& forall|i: int|
        0 <= i < b.proofs@.len() ==> proof_valid(b.master_challenge@, bits, b.proofs@[i])
}

/// What verifying one proof returns, checks in order: challenge
/// binding, difficulty, Equi-X acceptance.
pub open spec fn spec_proof_verify(master: Seq<u8>, bits: u32, p: Proof) -> Result<
    (),
    VerifyError,
> {
    if p.challenge != spec_derive_challenge(master, p.id) {
        Err(VerifyError::Malformed)
    } else if !spec_meets_bits(blake3_of(p.solution@)@, bits) {
        Err(VerifyError::InvalidDifficulty)
    } else if !equix_accepts(p.challenge@, p.solution@) {
        Err(VerifyError::Malformed)
    } else {
        Ok(())
    }
}

/// What the strict walk returns from position `i` on: the id-order
/// check against the previous proof, then the per-proof checks, with
/// the first failure reported.
pub open spec fn spec_check_from(
    proofs: Seq<Proof>,
    master: Seq<u8>,
    bits: u32,
    i: int,
) -> Result<(), VerifyError>
    decreases proofs.len() - i,
{
    if i < 0 || i >= proofs.len() {
        Ok(())
    } else {
        let step = if i > 0 && proofs[i].id == proofs[i - 1].id {
            Err(VerifyError::DuplicateProof)
        } else if i > 0 && proofs[i].id < proofs[i - 1].id {
            Err(VerifyError::Malformed)
        } else {
            spec_proof_verify(master, bits, proofs[i])
        };
        match step {
            Err(e) => Err(e),
            Ok(()) => spec_check_from(proofs, master, bits, i + 1),
        }
    }
}

/// What strict verification of a bundle returns.
pub open spec fn spec_verify_strict(b: ProofBundle, bits: u32, count: int) -> Result<
    (),
    VerifyError,
> {
    if b.proofs@.len() != count {
        Err(VerifyError::InvalidDifficulty)
    } else {
        spec_check_from(b.proofs@, b.master_challenge@, bits, 0)
    }
}

/// Compare two 32-byte strings.
pub fn bytes32_eq(a: &[u8; 32], b: &[u8; 32]) -> (r: bool)
    ensures
        r == (*a == *b),
{
    let mut i: usize = 0;
    while i < 32
        invariant
            0 <= i <= 32,
            forall|j: int| 0 <= j < i ==> a@[j] == b@[j],
        decreases 32 - i,
    {
        if a[i] != b[i] {
            assert(a@[i as int] != b@[i as int]);
            return false;
        }
        i += 1;
    }
    proof {
        assert(*a =~= *b);
    }
    true
}

/// Compare two 16-byte strings.
pub fn bytes16_eq(a: &[u8; 16], b: &[u8; 16]) -> (r: bool)
    ensures
        r == (*a == *b),
{
    let mut i: usize = 0;
    while i < 16
        invariant
            0 <= i <= 16,
            forall|j: int| 0 <= j < i ==> a@[j] == b@[j],
        decreases 16 - i,
    {
        if a[i] != b[i] {
            assert(a@[i as int] != b@[i as int]);
            return false;
        }
        i += 1;
    }
    proof {
        assert(*a =~= *b);
    }
    true
}

impl Proof {
    /// Verify this proof against a master challenge and difficulty:
    /// the challenge must be the one derived for the id, the BLAKE3
    /// hash of the solution must meet `bits`, and Equi-X must accept
    /// the solution. Cheap checks run first.
    pub fn verify(&self, bits: u32, master_challenge: [u8; 32]) -> (r: Result<(), VerifyError>)
        ensures
            r == spec_proof_verify(master_challenge@, bits, *self),
            r is Ok <==> proof_valid(master_challenge@, bits, *self),
    {
        let expected_challenge = derive_challenge(master_challenge, self.id);
        if !bytes32_eq(&expected_challenge, &self.challenge) {
            return Err(VerifyError::Malformed);
        }

        let hash = blake3_hash32(self.solution.as_slice());
        let leading = leading_zero_bits(&hash);
        if leading < bits {
            return Err(VerifyError::InvalidDifficulty);
        }

        if !equix_verify(self.challenge.as_slice(), &self.solution) {
            return Err(VerifyError::Malformed);
        }

        Ok(())
    }
}

impl ProofBundle {
    /// Number of proofs in the bundle.
    pub fn len(&self) -> (n: usize)
        ensures
            n == self.proofs@.len(),
    {
        self.proofs.len()
    }

    /// Whether the bundle holds no proofs.
    pub fn is_empty(&self) -> (r: bool)
        ensures
            r == (self.proofs@.len() == 0),
    {
        self.proofs.is_empty()
    }

    /// Insert a proof, rejecting a duplicate id and keeping the
    /// sequence sorted by id.
    pub fn insert_proof(&mut self, proof: Proof) -> (r: Result<(), VerifyError>)
        requires
            ids_strictly_increasing(old(self).proofs@),
        ensures
            old(self).config == final(self).config,
            old(self).master_challenge == final(self).master_challenge,
            r is Err <==> exists|j: int|
                0 <= j < old(self).proofs@.len() && old(self).proofs@[j].id == proof.id,
            r is Err ==> r == Err::<(), VerifyError>(VerifyError::DuplicateProof)
                && final(self).proofs@ == old(self).proofs@,
            r is Ok ==> exists|k: int|
                {
                    &&& 0 <= k <= old(self).proofs@.len()
                    &&& final(self).proofs@ == old(self).proofs@.insert(k, proof)
                    &&& forall|i: int| 0 <= i < k ==> old(self).proofs@[i].id < proof.id
                    &&& forall|i: int|
                        k <= i < old(self).proofs@.len() ==> proof.id < old(self).proofs@[i].id
                },
            ids_strictly_increasing(final(self).proofs@),
            (r is Ok && forall|i: int|
                0 <= i < old(self).proofs@.len() ==> (#[trigger] old(self).proofs@[i]).id
                    < proof.id) ==> final(self).proofs@ == old(self).proofs@.push(proof),
    {
        let ghost old_proofs = self.proofs@;
        let mut pos: usize = 0;
        while pos < self.proofs.len() && self.proofs[pos].id < proof.id
            invariant
                self == old(self),
                0 <= pos <= self.proofs@.len(),
                forall|i: int| 0 <= i < pos ==> self.proofs@[i].id < proof.id,
            decreases self.proofs@.len() - pos,
        {
            pos += 1;
        }
        if pos < self.proofs.len() && self.proofs[pos].id == proof.id {
            proof {
                assert(old(self).proofs@[pos as int].id == proof.id);
            }
            return Err(VerifyError::DuplicateProof);
        }
        proof {
            assert(forall|i: int|
                pos <= i < old_proofs.len() ==> proof.id < old_proofs[i].id) by {
                assert forall|i: int|
                    pos <= i < old_proofs.len() implies proof.id < old_proofs[i].id by {
                    if i == pos {
                        assert(old_proofs[i].id != proof.id);
                        assert(!(old_proofs[i].id < proof.id));
                    } else {
                        assert(old_proofs[pos as int].id < old_proofs[i].id);
                        assert(!(old_proofs[pos as int].id < proof.id));
                    }
                }
            }
        }
        self.proofs.insert(pos, proof);
        proof {
            let s = self.proofs@;
            let k = pos as int;
            assert(s == old_proofs.insert(k, proof));
            assert forall|i: int, j: int| 0 <= i < j < s.len() implies s[i].id < s[j].id by {
                assert(forall|m: int| 0 <= m < k ==> s[m] == old_proofs[m]);
                assert(s[k] == proof);
                assert(forall|m: int| k < m < s.len() ==> s[m] == old_proofs[m - 1]);
            }
            if forall|m: int|
                0 <= m < old_proofs.len() ==> (#[trigger] old_proofs[m]).id < proof.id {
                assert(k == old_proofs.len()) by {
                    if k < old_proofs.len() {
                        assert(old_proofs[k].id < proof.id);
                    }
                }
                assert(old_proofs.insert(k, proof) =~= old_proofs.push(proof));
            }
        }
        Ok(())
    }

    /// Strictly verify the bundle: exactly `count_required` proofs,
    /// ids strictly increasing, and every proof valid for the bundle's
    /// master challenge at `bits_required`. Cheap checks precede the
    /// Equi-X verification, and the first failure is reported.
    pub fn verify_strict(&self, bits_required: u32, count_required: usize) -> (r: Result<
        (),
        VerifyError,
    >)
        ensures
            r == spec_verify_strict(*self, bits_required, count_required as int),
            r is Ok <==> bundle_ok(*self, bits_required, count_required as int),
    {
        proof {
            lemma_verify_strict_ok_iff_bundle_ok(*self, bits_required, count_required as int);
        }
        if self.proofs.len() != count_required {
            return Err(VerifyError::InvalidDifficulty);
        }
        let mut i: usize = 0;
        while i < self.proofs.len()
            invariant
                0 <= i <= self.proofs@.len(),
                self.proofs@.len() == count_required,
                spec_check_from(self.proofs@, self.master_challenge@, bits_required, 0)
                    == spec_check_from(self.proofs@, self.master_challenge@, bits_required, i as int),
                spec_verify_strict(*self, bits_required, count_required as int) is Ok <==> bundle_ok(
                    *self,
                    bits_required,
                    count_required as int,
                ),
            decreases self.proofs@.len() - i,
        {
            let ghost s = self.proofs@;
            let ghost m = self.master_challenge@;
            if i > 0 {
                let prev = self.proofs[i - 1].id;
                let cur = self.proofs[i].id;
                if cur == prev {
                    proof {
                        assert(spec_check_from(s, m, bits_required, i as int)
                            == Err::<(), VerifyError>(VerifyError::DuplicateProof));
                    }
                    return Err(VerifyError::DuplicateProof);
                }
                if cur < prev {
                    proof {
                        assert(spec_check_from(s, m, bits_required, i as int)
                            == Err::<(), VerifyError>(VerifyError::Malformed));
                    }
                    return Err(VerifyError::Malformed);
                }
            }
            let step = self.proofs[i].verify(bits_required, self.master_challenge);
            proof {
                assert(step == spec_proof_verify(m, bits_required, s[i as int]));
                if step is Err {
                    assert(spec_check_from(s, m, bits_required, i as int) == step);
                } else {
                    assert(spec_check_from(s, m, bits_required, i as int)
                        == spec_check_from(s, m, bits_required, i + 1));
                }
            }
            if let Err(e) = step {
                return Err(e);
            }
            i += 1;
        }
        Ok(())
    }
}

impl PowProof for Proof {
    fn id(&self) -> (r: u64)
        ensures
            r == self.id,
    {
        self.id
    }
}

impl PowConfig for ProofConfig {
    fn difficulty(&self) -> (r: u32)
        ensures
            r == self.bits,
    {
        self.bits
    }
}

impl PowBundle for ProofBundle {
    type Proof = Proof;

    type Config = ProofConfig;

    fn proofs(&self) -> (r: &[Proof])
        ensures
            r@ == self.proofs@,
    {
        self.proofs.as_slice()
    }

    fn config(&self) -> (r: &ProofConfig)
        ensures
            r == self.config,
    {
        &self.config
    }

    fn master_challenge(&self) -> (r: &[u8; 32])
        ensures
            r == self.master_challenge,
    {
        &self.master_challenge
    }

    fn insert_proof(&mut self, proof: Proof) -> Result<(), VerifyError> {
        if !ids_sorted_check(&self.proofs) {
            return Err(VerifyError::Malformed);
        }
        ProofBundle::insert_proof(self, proof)
    }

    fn verify_strict(&self) -> Result<(), VerifyError> {
        let n = self.proofs.len();
        ProofBundle::verify_strict(self, self.config.bits, n)
    }
}

/// Check at run time that ids strictly increase.
pub fn ids_sorted_check(proofs: &Vec<Proof>) -> (r: bool)
    ensures
        r == ids_strictly_increasing(proofs@),
{
    let mut i: usize = 1;
    while i < proofs.len()
        invariant
            1 <= i,
            i <= proofs@.len() || proofs@.len() == 0,
            forall|m: int| 0 < m < i && m < proofs@.len() ==> (#[trigger] proofs@[m]).id
                > proofs@[m - 1].id,
        decreases proofs@.len() - i,
    {
        if proofs[i].id <= proofs[i - 1].id {
            return false;
        }
        i += 1;
    }
    proof {
        if proofs@.len() > 0 {
            assert forall|a: int, b: int|
                0 <= a < b < proofs@.len() implies proofs@[a].id < proofs@[b].id by {
                lemma_adjacent_increase(proofs@, a, b);
            }
        }
    }
    true
}

/// Adjacent order checks imply global strict increase.
proof fn lemma_adjacent_increase(s: Seq<Proof>, i: int, j: int)
    requires
        forall|m: int| 0 < m < s.len() ==> (#[trigger] s[m]).id > s[m - 1].id,
        0 <= i < j < s.len(),
    ensures
        s[i].id < s[j].id,
    decreases j - i,
{
    if i + 1 < j {
        lemma_adjacent_increase(s, i, j - 1);
    }
}

/// The strict walk from position `i` succeeds exactly when every
/// remaining adjacent pair increases and every remaining proof is
/// valid.
proof fn lemma_check_from_ok(proofs: Seq<Proof>, master: Seq<u8>, bits: u32, i: int)
    requires
        0 <= i <= proofs.len(),
    ensures
        spec_check_from(proofs, master, bits, i) is Ok <==> ((forall|m: int|
            i <= m < proofs.len() && m > 0 ==> (#[trigger] proofs[m]).id > proofs[m - 1].id) && (
        forall|m: int| i <= m < proofs.len() ==> proof_valid(master, bits, #[trigger] proofs[m]))),
    decreases proofs.len() - i,
{
    if i < proofs.len() {
        lemma_check_from_ok(proofs, master, bits, i + 1);
    }
}

/// Law: strict verification succeeds exactly on well-formed bundles —
/// the right count, strictly increasing ids, and every proof bound to
/// the master challenge, meeting difficulty, and accepted by Equi-X.
pub proof fn lemma_verify_strict_ok_iff_bundle_ok(b: ProofBundle, bits: u32, count: int)
    ensures
        spec_verify_strict(b, bits, count) is Ok <==> bundle_ok(b, bits, count),
{
    let s = b.proofs@;
    lemma_check_from_ok(s, b.master_challenge@, bits, 0);
    if spec_verify_strict(b, bits, count) is Ok {
        assert forall|i: int, j: int| 0 <= i < j < s.len() implies s[i].id < s[j].id by {
            lemma_adjacent_increase(s, i, j);
        }
    }
}

} // verus!
