//! Deterministic nonce derivation from a server secret and timestamp.

use crate::hashing::{blake3_keyed32, blake3_keyed_of};
use vstd::bytes::{spec_u64_to_le_bytes, u64_to_le_bytes};
use vstd::prelude::*;

verus! {

/// Domain tag for nonce derivation (the bytes of `rspow:nonce:v1`).
pub open spec fn nonce_tag() -> Seq<u8> {
    seq![114u8, 115, 112, 111, 119, 58, 110, 111, 110, 99, 101, 58, 118, 49]
}

/// The bytes fed to the keyed hash: the domain tag, then the timestamp
/// little-endian.
pub open spec fn spec_nonce_message(ts: u64) -> Seq<u8> {
    nonce_tag() + spec_u64_to_le_bytes(ts)
}

/// The deterministic nonce for `(secret, ts)`: keyed BLAKE3 under the
/// secret over the tagged message.
pub open spec fn spec_deterministic_nonce(secret: Seq<u8>, ts: u64) -> [u8; 32] {
    blake3_keyed_of(secret, spec_nonce_message(ts))
}

/// Derive the deterministic 32-byte nonce for a UNIX timestamp under a
/// server secret. Recomputable by anyone holding the secret: the server
/// keeps no per-challenge state.
pub fn derive_deterministic_nonce(secret: [u8; 32], ts: u64) -> (r: [u8; 32])
    ensures
        r == spec_deterministic_nonce(secret@, ts),
{
    let tag: [u8; 14] = [114, 115, 112, 111, 119, 58, 110, 111, 110, 99, 101, 58, 118, 49];
    let mut msg: Vec<u8> = Vec::new();
    msg.extend_from_slice(tag.as_slice());
    let ts_bytes = u64_to_le_bytes(ts);
    msg.extend_from_slice(ts_bytes.as_slice());
    proof {
        assert(tag@ =~= nonce_tag());
        assert(msg@ =~= spec_nonce_message(ts));
    }
    blake3_keyed32(&secret, msg.as_slice())
}

/// Pluggable provider of deterministic nonces, so tests can enumerate
/// nonces at will.
pub trait DeterministicNonceProvider {
    /// Derive a deterministic 32-byte nonce for the given UNIX
    /// timestamp in seconds.
    fn derive(&self, secret: [u8; 32], ts: u64) -> [u8; 32];
}

/// The default keyed-BLAKE3 provider with domain separation.
#[derive(Debug, Clone, Copy, Default)]
pub struct Blake3NonceProvider;

impl DeterministicNonceProvider for Blake3NonceProvider {
    fn derive(&self, secret: [u8; 32], ts: u64) -> [u8; 32] {
        derive_deterministic_nonce(secret, ts)
    }
}

} // verus!
