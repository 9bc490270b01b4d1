//! Trusted bindings to the Equi-X puzzle primitive.
//!
//! The core treats Equi-X as a black box: a function from a challenge to
//! a set of 16-byte solutions, and a check of a claimed solution. Both
//! are deterministic in the challenge and solution bytes, so each is
//! named by an uninterpreted spec function.

use vstd::prelude::*;

verus! {

/// What the Equi-X solver finds for a challenge: `None` when instance
/// construction fails (a small fraction of challenges, by design),
/// otherwise the solutions in the order the solver reports them.
pub uninterp spec fn equix_solutions_of(challenge: Seq<u8>) -> Option<Seq<[u8; 16]>>;

/// Whether Equi-X accepts `solution` for `challenge`.
pub uninterp spec fn equix_accepts(challenge: Seq<u8>, solution: Seq<u8>) -> bool;

/// Relies on equix::solve (EquiX::new + EquiX::solve): build an Equi-X
/// instance for the challenge and enumerate its solutions. Construction
/// and solving are deterministic in the challenge bytes under the
/// default runtime options; construction fails for a small fraction of
/// challenges, which solvers must skip. Every solution the solver
/// reports is assembled from the same tree-sum collisions that
/// verification checks, so it passes verification for this challenge.
#[verifier::external_body]
pub fn equix_solutions(challenge: &[u8]) -> (r: Option<Vec<[u8; 16]>>)
    ensures
        match r {
            Some(sols) => {
                &&& equix_solutions_of(challenge@) == Some(sols@)
                &&& forall|i: int|
                    0 <= i < sols@.len() ==> equix_accepts(challenge@, sols@[i]@)
            },
            None => equix_solutions_of(challenge@) is None,
        },
{
    match equix::solve(challenge) {
        Ok(sols) => {
            let mut out: Vec<[u8; 16]> = Vec::with_capacity(sols.len());
            for sol in sols.iter() {
                out.push(sol.to_bytes());
            }
            Some(out)
        }
        Err(_) => None,
    }
}

/// Relies on equix::verify_bytes: whether the 16 solution bytes form a
/// well-ordered solution whose hash tree sums check out for this
/// challenge. The result is determined by the two byte strings alone.
#[verifier::external_body]
pub fn equix_verify(challenge: &[u8], solution: &[u8; 16]) -> (r: bool)
    ensures
        r == equix_accepts(challenge@, solution@),
{
    equix::verify_bytes(challenge, solution).is_ok()
}

} // verus!
