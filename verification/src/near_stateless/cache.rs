//! Replay prevention: a mapping from client nonces to expiry times.

use crate::types::bytes32_eq;
use vstd::prelude::*;

verus! {

/// Failure of a replay cache operation.
#[derive(Debug, Clone)]
pub enum ReplayCacheError {
    Other(String),
}

impl ReplayCacheError {
    /// Short description of the failure.
    pub fn message(&self) -> (r: String) {
        match self {
            ReplayCacheError::Other(s) => s.clone(),
        }
    }
}

/// Replay cache abstraction: prevents duplicate client-nonce
/// submissions within the time window.
pub trait ReplayCache {
    /// Insert the nonce with the given expiry (UNIX seconds) if it is
    /// absent or expired. `Ok(true)` when inserted, `Ok(false)` when
    /// the nonce is already present and unexpired.
    fn insert_if_absent(
        &mut self,
        client_nonce: [u8; 32],
        expires_at: u64,
        now: u64,
    ) -> Result<bool, ReplayCacheError>;
}

/// A nonce is live in a cache state: present with an expiry after
/// `now`. An expired entry is never treated as present.
pub open spec fn cache_has_live(entries: Seq<([u8; 32], u64)>, nonce: [u8; 32], now: u64) -> bool {
    exists|i: int| 0 <= i < entries.len() && entries[i].0 == nonce && entries[i].1 > now
}

/// A cache state records the nonce with exactly this expiry.
pub open spec fn cache_contains(entries: Seq<([u8; 32], u64)>, nonce: [u8; 32], expires_at: u64) -> bool {
    exists|i: int| 0 <= i < entries.len() && entries[i] == (nonce, expires_at)
}

/// In-memory capacity-bounded replay cache: a sequence of
/// `(nonce, expires_at)` entries, oldest first.
#[derive(Debug, Clone)]
pub struct MemoryReplayCache {
    pub entries: Vec<([u8; 32], u64)>,
    pub capacity: usize,
}

impl MemoryReplayCache {
    /// An empty cache that holds at most `max_capacity` entries.
    pub fn new(max_capacity: usize) -> (r: Self)
        ensures
            r.entries@.len() == 0,
            r.capacity == max_capacity,
    {
        MemoryReplayCache { entries: Vec::new(), capacity: max_capacity }
    }

    /// Insert the nonce if it is absent or expired: `Ok(false)` and no
    /// change when it is live, otherwise `Ok(true)` with the new entry
    /// recorded. Entries are never invented, and when the cache is full
    /// the oldest one is evicted.
    pub fn insert_if_absent(&mut self, client_nonce: [u8; 32], expires_at: u64, now: u64) -> (r:
        Result<bool, ReplayCacheError>)
        ensures
            r is Ok,
            cache_has_live(old(self).entries@, client_nonce, now) ==> r == Ok::<
                bool,
                ReplayCacheError,
            >(false) && final(self).entries@ == old(self).entries@,
            !cache_has_live(old(self).entries@, client_nonce, now) ==> {
                &&& r == Ok::<bool, ReplayCacheError>(true)
                &&& cache_contains(final(self).entries@, client_nonce, expires_at)
                &&& forall|i: int|
                    0 <= i < final(self).entries@.len() ==> (#[trigger] final(self).entries@[i])
                        == (client_nonce, expires_at) || old(self).entries@.contains(
                        final(self).entries@[i],
                    )
            },
            final(self).capacity == old(self).capacity,
    {
        let mut i: usize = 0;
        while i < self.entries.len()
            invariant
                self == old(self),
                0 <= i <= self.entries@.len(),
                forall|j: int|
                    0 <= j < i ==> !((#[trigger] self.entries@[j]).0 == client_nonce
                        && self.entries@[j].1 > now),
            decreases self.entries@.len() - i,
        {
            let live = {
                let entry = &self.entries[i];
                bytes32_eq(&entry.0, &client_nonce) && entry.1 > now
            };
            if live {
                return Ok(false);
            }
            i += 1;
        }
        let ghost pre = self.entries@;
        if self.entries.len() >= self.capacity && self.entries.len() > 0 {
            self.entries.remove(0);
        }
        let ghost mid = self.entries@;
        self.entries.push((client_nonce, expires_at));
        proof {
            let es = self.entries@;
            assert(es[es.len() - 1] == (client_nonce, expires_at));
            assert(cache_contains(es, client_nonce, expires_at));
            assert forall|x: ([u8; 32], u64)| mid.contains(x) implies pre.contains(x) by {
                let j = choose|j: int| 0 <= j < mid.len() && mid[j] == x;
                if mid.len() == pre.len() {
                    assert(mid[j] == pre[j]);
                } else {
                    assert(mid =~= pre.subrange(1, pre.len() as int));
                    assert(mid[j] == pre[j + 1]);
                }
            }
            assert forall|i: int| 0 <= i < es.len() implies ((#[trigger] es[i]) == (
            client_nonce,
            expires_at,
            ) || pre.contains(es[i])) by {
                if i < es.len() - 1 {
                    assert(es[i] == mid[i]);
                    assert(mid.contains(mid[i]));
                }
            }
        }
        Ok(true)
    }
}

impl ReplayCache for MemoryReplayCache {
    fn insert_if_absent(
        &mut self,
        client_nonce: [u8; 32],
        expires_at: u64,
        now: u64,
    ) -> Result<bool, ReplayCacheError> {
        MemoryReplayCache::insert_if_absent(self, client_nonce, expires_at, now)
    }
}

} // verus!
