//! Time sources: the system clock and a settable clock for deterministic runs.

use crate::trusted::since_epoch;
use std::sync::atomic::{AtomicU64, Ordering};
use std::sync::Arc;
use std::time::{Duration, SystemTime};
use vstd::prelude::*;

verus! {

/// A source of the current time.
pub trait Clock {
    /// Current time in milliseconds since the Unix epoch.
    fn now_millis(&self) -> u64;
}

/// Keeps the low 64 bits of a millisecond count.
pub fn low_u64(n: u128) -> (r: u64)
    ensures
        n <= u64::MAX ==> r == n,
{
    #[verifier::truncate]
    (n as u64)
}

/// Milliseconds since the Unix epoch by the system clock; 0 when the clock
/// reads earlier than the epoch.
pub fn system_millis() -> u64 {
    let now = SystemTime::now();
    match since_epoch(&now) {
        Ok(elapsed) => low_u64(elapsed.as_millis()),
        Err(_) => 0,
    }
}

/// The system clock.
#[derive(Clone, Copy, Default)]
pub struct SystemClock;

impl Clock for SystemClock {
    fn now_millis(&self) -> u64 {
        system_millis()
    }
}

/// A clock that stands still until it is moved. Clones share one counter, so
/// a change made through one is seen through all.
///
/// What a reading is depends on every handle of the counter, not on the
/// handle that is asked, so no contract of this type speaks of readings.
pub struct FakeClock {
    current_time: Arc<AtomicU64>,
}

impl Clone for FakeClock {
    fn clone(&self) -> Self {
        FakeClock { current_time: Arc::clone(&self.current_time) }
    }
}

impl FakeClock {
    /// A clock that starts at `initial_time_ms`.
    pub fn new(initial_time_ms: u64) -> Self {
        FakeClock { current_time: Arc::new(AtomicU64::new(initial_time_ms)) }
    }

    /// Moves the clock forward by `duration_ms` milliseconds, wrapping at
    /// 2^64.
    pub fn advance_ms(&self, duration_ms: u64) {
        self.current_time.fetch_add(duration_ms, Ordering::SeqCst);
    }

    /// Moves the clock forward by `duration`.
    pub fn advance(&self, duration: Duration) {
        self.advance_ms(low_u64(duration.as_millis()));
    }

    /// Sets the clock to `time_ms`.
    pub fn set(&self, time_ms: u64) {
        self.current_time.store(time_ms, Ordering::SeqCst);
    }
}

impl Clock for FakeClock {
    fn now_millis(&self) -> u64 {
        self.current_time.load(Ordering::SeqCst)
    }
}

} // verus!
