//! Strict verification of contiguous bundles whose difficulty hash is
//! SHA-256: ids must be exactly the positions 0, 1, 2, …

use crate::challenge::{derive_challenge, spec_derive_challenge};
use crate::difficulty::{meets_leading_zero_bits, spec_meets_bits};
use crate::equix::primitive::{equix_accepts, equix_verify};
use crate::error::VerifyError;
use crate::hashing::{sha256_hash32, sha256_of};
use crate::types::{bytes32_eq, Proof, ProofBundle};
use vstd::prelude::*;

verus! {

/// What verifying one proof returns: Equi-X acceptance first, then the
/// SHA-256 difficulty of the solution bytes.
pub open spec fn spec_verify_proof(p: Proof, config_bits: u32) -> Result<(), VerifyError> {
    if !equix_accepts(p.challenge@, p.solution@) {
        Err(VerifyError::Malformed)
    } else if !spec_meets_bits(sha256_of(p.solution@)@, config_bits) {
        Err(VerifyError::InvalidDifficulty)
    } else {
        Ok(())
    }
}

/// Verify one proof: Equi-X must accept the solution for the proof's
/// own challenge, and the SHA-256 digest of the solution must meet the
/// difficulty.
pub fn verify_proof(proof: &Proof, config_bits: u32) -> (r: Result<(), VerifyError>)
    ensures
        r == spec_verify_proof(*proof, config_bits),
{
    if !equix_verify(proof.challenge.as_slice(), &proof.solution) {
        return Err(VerifyError::Malformed);
    }
    let hash = sha256_hash32(proof.solution.as_slice());
    if !meets_leading_zero_bits(&hash, config_bits) {
        return Err(VerifyError::InvalidDifficulty);
    }
    Ok(())
}

/// What the contiguous strict walk returns from position `i` on: id
/// order against the previous proof, the id equal to its position, the
/// challenge bound to the master, then the per-proof checks, first
/// failure reported.
pub open spec fn spec_strict_from(
    proofs: Seq<Proof>,
    master: Seq<u8>,
    bits: u32,
    i: int,
) -> Result<(), VerifyError>
    decreases proofs.len() - i,
{
    if i < 0 || i >= proofs.len() {
        Ok(())
    } else {
        let step = if i > 0 && proofs[i].id == proofs[i - 1].id {
            Err(VerifyError::DuplicateProof)
        } else if i > 0 && proofs[i].id < proofs[i - 1].id {
            Err(VerifyError::Malformed)
        } else if proofs[i].id != i {
            Err(VerifyError::Malformed)
        } else if proofs[i].challenge != spec_derive_challenge(master, proofs[i].id) {
            Err(VerifyError::Malformed)
        } else {
            spec_verify_proof(proofs[i], bits)
        };
        match step {
            Err(e) => Err(e),
            Ok(()) => spec_strict_from(proofs, master, bits, i + 1),
        }
    }
}

/// Strictly verify a contiguous bundle: ids must be exactly the
/// positions 0, 1, 2, …, each challenge bound to the master, and each
/// proof accepted at the bundle's own difficulty.
pub fn verify_bundle_strict(bundle: &ProofBundle) -> (r: Result<(), VerifyError>)
    ensures
        r == spec_strict_from(bundle.proofs@, bundle.master_challenge@, bundle.config.bits, 0),
{
    let mut i: usize = 0;
    while i < bundle.proofs.len()
        invariant
            0 <= i <= bundle.proofs@.len(),
            spec_strict_from(bundle.proofs@, bundle.master_challenge@, bundle.config.bits, 0)
                == spec_strict_from(
                bundle.proofs@,
                bundle.master_challenge@,
                bundle.config.bits,
                i as int,
            ),
        decreases bundle.proofs@.len() - i,
    {
        let ghost s = bundle.proofs@;
        let ghost m = bundle.master_challenge@;
        let ghost bits = bundle.config.bits;
        let p = bundle.proofs[i];
        if i > 0 {
            let prev = bundle.proofs[i - 1].id;
            if p.id == prev {
                proof {
                    assert(spec_strict_from(s, m, bits, i as int) == Err::<(), VerifyError>(
                        VerifyError::DuplicateProof,
                    ));
                }
                return Err(VerifyError::DuplicateProof);
            }
            if p.id < prev {
                proof {
                    assert(spec_strict_from(s, m, bits, i as int) == Err::<(), VerifyError>(
                        VerifyError::Malformed,
                    ));
                }
                return Err(VerifyError::Malformed);
            }
        }
        if p.id != i as u64 {
            proof {
                assert(spec_strict_from(s, m, bits, i as int) == Err::<(), VerifyError>(
                    VerifyError::Malformed,
                ));
            }
            return Err(VerifyError::Malformed);
        }
        let expected = derive_challenge(bundle.master_challenge, p.id);
        if !bytes32_eq(&expected, &p.challenge) {
            proof {
                assert(spec_strict_from(s, m, bits, i as int) == Err::<(), VerifyError>(
                    VerifyError::Malformed,
                ));
            }
            return Err(VerifyError::Malformed);
        }
        let step = verify_proof(&p, bundle.config.bits);
        proof {
            if step is Err {
                assert(spec_strict_from(s, m, bits, i as int) == step);
            } else {
                assert(spec_strict_from(s, m, bits, i as int) == spec_strict_from(
                    s,
                    m,
                    bits,
                    i + 1,
                ));
            }
        }
        if let Err(e) = step {
            return Err(e);
        }
        i += 1;
    }
    Ok(())
}

} // verus!
