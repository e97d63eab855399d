use std::sync::atomic::{AtomicU64, Ordering};
use std::sync::Arc;
use vstd::prelude::*;

use crate::time::{duration_from_micros, duration_micros_u64};

verus! {

/// Simulation clock that tracks elapsed time in microseconds. Clones share
/// the same count, which any of them may change at any time; so what a read
/// returns is not fixed by the calls this clone made.
#[derive(Debug, Clone)]
pub struct SimClock {
    micros: Arc<AtomicU64>,
}

impl SimClock {
    pub fn new() -> (c: SimClock) {
        SimClock { micros: Arc::new(AtomicU64::new(0)) }
    }

    /// Advance the clock by the given duration (whole microseconds; the count
    /// wraps past 2^64).
    pub fn advance(&self, dt: std::time::Duration) {
        let us = duration_micros_u64(dt);
        self.micros.fetch_add(us, Ordering::Relaxed);
    }

    /// Current elapsed time as Duration.
    pub fn elapsed(&self) -> (d: std::time::Duration) {
        let us = self.micros.load(Ordering::Relaxed);
        duration_from_micros(us)
    }

    /// Reset the clock to zero.
    pub fn reset(&self) {
        self.micros.store(0, Ordering::Relaxed);
    }
}

impl Default for SimClock {
    fn default() -> (c: SimClock) {
        SimClock::new()
    }
}

} // verus!
