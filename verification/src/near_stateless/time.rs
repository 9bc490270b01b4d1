//! Time injection, so tests can freeze the clock.

use vstd::prelude::*;

verus! {

/// Pluggable clock.
pub trait TimeProvider {
    /// The current time as whole seconds since the UNIX epoch.
    fn now_seconds(&self) -> u64;
}

/// Relies on std::time::SystemTime::now, duration_since(UNIX_EPOCH) and
/// Duration::as_secs: seconds since the UNIX epoch, or zero for a clock
/// before it. Nothing is assumed of the clock's value.
#[verifier::external_body]
fn unix_now_seconds() -> u64 {
    std::time::SystemTime::now()
        .duration_since(std::time::UNIX_EPOCH)
        .unwrap_or_default()
        .as_secs()
}

/// The system clock.
#[derive(Debug, Clone, Copy, Default)]
pub struct SystemTimeProvider;

impl TimeProvider for SystemTimeProvider {
    fn now_seconds(&self) -> u64 {
        unix_now_seconds()
    }
}

} // verus!
