//! Shared atomics for parallel work-nonce distribution and hit-count
//! early stop. The atomics' contents are not modelled: their values
//! depend on every thread that shares them.

use std::sync::atomic::{AtomicBool, AtomicU64, AtomicUsize, Ordering};
use vstd::prelude::*;

verus! {

/// Atomically distributed, monotonically increasing work nonces.
#[derive(Debug)]
pub struct NonceSource {
    next: AtomicU64,
}

impl NonceSource {
    /// A source whose first nonce is `start`.
    pub fn new(start: u64) -> Self {
        NonceSource { next: AtomicU64::new(start) }
    }

    /// Reserve and return the next nonce.
    pub fn fetch(&self) -> u64 {
        self.next.fetch_add(1, Ordering::Relaxed)
    }
}

/// Track found hits and coordinate early stop across workers.
#[derive(Debug)]
pub struct HitStop {
    /// How many hits trigger the stop; always at least one.
    pub limit: usize,
    pub found: AtomicUsize,
    pub stop: AtomicBool,
}

impl HitStop {
    /// A tracker with a positive hit limit.
    pub fn new(limit: usize) -> (r: Result<Self, String>)
        ensures
            limit == 0 ==> r is Err,
            limit >= 1 ==> (r matches Ok(h) && h.limit == limit),
    {
        if limit == 0 {
            return Err("hit limit must be >= 1".to_owned());
        }
        Ok(HitStop { limit, found: AtomicUsize::new(0), stop: AtomicBool::new(false) })
    }

    /// Whether workers should stop.
    pub fn should_stop(&self) -> bool {
        self.stop.load(Ordering::Relaxed)
    }

    /// Record a hit; `true` when this hit reached the limit and
    /// triggered the stop.
    pub fn record_hit(&self) -> bool {
        if self.should_stop() {
            return true;
        }
        let prev = self.found.fetch_add(1, Ordering::SeqCst);
        let counted = prev.saturating_add(1);
        if counted >= self.limit {
            self.stop.store(true, Ordering::SeqCst);
            true
        } else {
            false
        }
    }

    /// Latch the stop flag, for example on a fatal error.
    pub fn force_stop(&self) {
        self.stop.store(true, Ordering::SeqCst);
    }

    /// Number of hits recorded so far.
    pub fn found(&self) -> usize {
        self.found.load(Ordering::Relaxed)
    }
}

} // verus!
