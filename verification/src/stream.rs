//! Shared atomics for id distribution and early-stop coordination
//! between solver workers. The atomics' contents are not modelled:
//! their values depend on every thread that shares them.

use std::sync::atomic::{AtomicBool, AtomicU64, Ordering};
use vstd::prelude::*;

verus! {

/// Atomically distributed, monotonically increasing proof ids.
#[derive(Debug)]
pub struct NonceSource {
    next: AtomicU64,
}

impl NonceSource {
    /// A source whose first id is `start`.
    pub fn new(start: u64) -> Self {
        NonceSource { next: AtomicU64::new(start) }
    }

    /// Reserve and return the next id.
    pub fn fetch(&self) -> u64 {
        self.next.fetch_add(1, Ordering::Relaxed)
    }
}

/// Cooperative stop latch for solver workers.
#[derive(Debug)]
pub struct StopFlag {
    stop: AtomicBool,
}

impl StopFlag {
    /// A latch that is not yet set.
    pub fn new() -> Self {
        StopFlag { stop: AtomicBool::new(false) }
    }

    /// Whether workers should stop.
    pub fn should_stop(&self) -> bool {
        self.stop.load(Ordering::Relaxed)
    }

    /// Latch the stop flag; it is never cleared.
    pub fn force_stop(&self) {
        self.stop.store(true, Ordering::SeqCst);
    }
}

} // verus!
