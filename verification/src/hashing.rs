//! Trusted bindings to the hash primitives.
//!
//! The digests themselves are not modelled: each binding names its
//! result with an uninterpreted spec function of the input bytes alone,
//! and verified code reasons over those names.

use sha2::Digest;
use vstd::prelude::*;

verus! {

/// The BLAKE3 digest of a byte string.
pub uninterp spec fn blake3_of(data: Seq<u8>) -> [u8; 32];

/// The keyed BLAKE3 digest of a byte string under a 32-byte key.
pub uninterp spec fn blake3_keyed_of(key: Seq<u8>, data: Seq<u8>) -> [u8; 32];

/// The SHA-256 digest of a byte string.
pub uninterp spec fn sha256_of(data: Seq<u8>) -> [u8; 32];

/// Relies on blake3::hash: a 32-byte digest determined by the input
/// bytes alone.
#[verifier::external_body]
pub fn blake3_hash32(data: &[u8]) -> (r: [u8; 32])
    ensures
        r == blake3_of(data@),
{
    *blake3::hash(data).as_bytes()
}

/// Relies on blake3::keyed_hash: a 32-byte digest determined by the key
/// and the input bytes alone.
#[verifier::external_body]
pub fn blake3_keyed32(key: &[u8; 32], data: &[u8]) -> (r: [u8; 32])
    ensures
        r == blake3_keyed_of(key@, data@),
{
    *blake3::keyed_hash(key, data).as_bytes()
}

/// Relies on sha2::Sha256::digest: a 32-byte digest determined by the
/// input bytes alone.
#[verifier::external_body]
pub fn sha256_hash32(data: &[u8]) -> (r: [u8; 32])
    ensures
        r == sha256_of(data@),
{
    sha2::Sha256::digest(data).into()
}

} // verus!
