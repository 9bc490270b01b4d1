//! Challenge derivation: binding one proof id to a master challenge.
//!
//! The challenge answered by proof `id` is the BLAKE3 digest of a fixed
//! domain tag, the 32-byte master challenge, and the id in little-endian
//! order. The tag is part of the protocol: changing it breaks interop.

use crate::hashing::{blake3_hash32, blake3_of};
use vstd::bytes::{
    lemma_auto_spec_u64_to_from_le_bytes, spec_u64_from_le_bytes, spec_u64_to_le_bytes,
    u64_to_le_bytes,
};
use vstd::prelude::*;

verus! {

/// Domain tag for per-proof challenge derivation
/// (the bytes of `rspow:equix:challenge:v1|`).
pub open spec fn challenge_tag() -> Seq<u8> {
    seq![
        114u8, 115, 112, 111, 119, 58, 101, 113, 117, 105, 120, 58, 99, 104, 97, 108, 108, 101,
        110, 103, 101, 58, 118, 49, 124,
    ]
}

/// The bytes hashed to derive the challenge for `(master, id)`: the
/// domain tag, then the master challenge, then the id little-endian.
pub open spec fn spec_challenge_message(master: Seq<u8>, proof_id: u64) -> Seq<u8> {
    challenge_tag() + master + spec_u64_to_le_bytes(proof_id)
}

/// The challenge bound to `(master, id)`.
pub open spec fn spec_derive_challenge(master: Seq<u8>, proof_id: u64) -> [u8; 32] {
    blake3_of(spec_challenge_message(master, proof_id))
}

/// Derive the Equi-X challenge for one proof id under a master
/// challenge. Deterministic: the result is a function of the two
/// arguments alone.
pub fn derive_challenge(master_challenge: [u8; 32], proof_id: u64) -> (r: [u8; 32])
    ensures
        r == spec_derive_challenge(master_challenge@, proof_id),
{
    let tag: [u8; 25] = [
        114, 115, 112, 111, 119, 58, 101, 113, 117, 105, 120, 58, 99, 104, 97, 108, 108, 101, 110,
        103, 101, 58, 118, 49, 124,
    ];
    let mut msg: Vec<u8> = Vec::new();
    msg.extend_from_slice(tag.as_slice());
    msg.extend_from_slice(master_challenge.as_slice());
    let id_bytes = u64_to_le_bytes(proof_id);
    msg.extend_from_slice(id_bytes.as_slice());
    proof {
        assert(tag@ =~= challenge_tag());
        assert(msg@ =~= spec_challenge_message(master_challenge@, proof_id));
    }
    blake3_hash32(msg.as_slice())
}

/// Law: challenge derivation is id-sensitive at the message level —
/// distinct proof ids under one master always hash distinct messages,
/// so the derived challenges differ whenever BLAKE3 is collision-free
/// on them.
pub proof fn lemma_challenge_message_id_sensitive(master: Seq<u8>, i: u64, j: u64)
    requires
        i != j,
    ensures
        spec_challenge_message(master, i) != spec_challenge_message(master, j),
{
    lemma_auto_spec_u64_to_from_le_bytes();
    let mi = spec_challenge_message(master, i);
    let mj = spec_challenge_message(master, j);
    if mi == mj {
        let off = 25 + master.len() as int;
        assert(mi.subrange(off, off + 8) =~= spec_u64_to_le_bytes(i));
        assert(mj.subrange(off, off + 8) =~= spec_u64_to_le_bytes(j));
        assert(spec_u64_from_le_bytes(spec_u64_to_le_bytes(i)) == i);
        assert(spec_u64_from_le_bytes(spec_u64_to_le_bytes(j)) == j);
    }
}

} // verus!
