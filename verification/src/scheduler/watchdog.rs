use std::sync::atomic::{AtomicU64, Ordering};
use std::sync::Arc;
use vstd::prelude::*;

use crate::time::unix_millis_now;

verus! {

/// Whether `elapsed_ms` milliseconds is longer than a timeout of
/// `timeout_ns` nanoseconds.
pub open spec fn exceeds(elapsed_ms: u64, timeout_ns: u128) -> bool {
    elapsed_ms as int * 1_000_000 > timeout_ns as int
}

/// Software watchdog timer.
/// Must be kicked periodically or it reports a timeout.
pub struct Watchdog {
    name: String,
    timeout_ns: u128,
    last_kick: Arc<AtomicU64>,
    triggered: bool,
}

fn timeout_passed(elapsed_ms: u64, timeout_ns: u128) -> (r: bool)
    ensures
        r == exceeds(elapsed_ms, timeout_ns),
{
    (elapsed_ms as u128) * 1_000_000 > timeout_ns
}

impl Watchdog {
    pub closed spec fn is_tripped(&self) -> bool {
        self.triggered
    }

    /// The name the watchdog was created with.
    pub closed spec fn name_view(&self) -> Seq<char> {
        self.name@
    }

    /// A watchdog with a timeout of `timeout_ns` nanoseconds, kicked now and
    /// not triggered.
    pub fn new(name: &str, timeout_ns: u128) -> (w: Watchdog)
        ensures
            !w.is_tripped(),
            w.name_view() == name@,
            w.timeout_view() == timeout_ns,
    {
        Watchdog {
            name: String::from_str(name),
            timeout_ns,
            last_kick: Arc::new(AtomicU64::new(unix_millis_now())),
            triggered: false,
        }
    }

    /// The shared record of the last kick, which every kicker of this
    /// watchdog writes and `check` reads.
    pub closed spec fn kick_record(&self) -> AtomicU64 {
        *self.last_kick
    }

    /// Get a handle to kick the watchdog from another thread: it writes the
    /// same last-kick record as this watchdog.
    pub fn kick_handle(&self) -> (k: WatchdogKicker)
        ensures
            k.kick_record() == self.kick_record(),
    {
        WatchdogKicker { last_kick: Arc::clone(&self.last_kick) }
    }

    /// Kick the watchdog (reset timer).
    pub fn kick(&self) {
        self.last_kick.store(unix_millis_now(), Ordering::Relaxed);
    }

    /// The timeout in nanoseconds.
    pub closed spec fn timeout_view(&self) -> u128 {
        self.timeout_ns
    }

    /// Check if the watchdog has timed out: reports a timeout once, when the
    /// time since the last kick first exceeds the timeout. The clock and the
    /// last kick are read here; `check_at` decides.
    pub fn check(&mut self) -> (fired: bool)
        ensures
            fired ==> !old(self).is_tripped(),
            final(self).is_tripped() == (old(self).is_tripped() || fired),
            final(self).name_view() == old(self).name_view(),
            final(self).timeout_view() == old(self).timeout_view(),
    {
        let now = unix_millis_now();
        let last = self.last_kick.load(Ordering::Relaxed);
        self.check_at(now, last)
    }

    /// The timeout decision for a clock reading of `now_ms` and a last kick at
    /// `last_kick_ms` (Unix milliseconds): it fires when the time between
    /// them (zero if the kick is later) exceeds the timeout and it has not
    /// fired before.
    pub fn check_at(&mut self, now_ms: u64, last_kick_ms: u64) -> (fired: bool)
        ensures
            fired == (exceeds(
                (if now_ms >= last_kick_ms {
                    now_ms - last_kick_ms
                } else {
                    0
                }) as u64,
                old(self).timeout_view(),
            ) && !old(self).is_tripped()),
            final(self).is_tripped() == (old(self).is_tripped() || fired),
            final(self).name_view() == old(self).name_view(),
            final(self).timeout_view() == old(self).timeout_view(),
    {
        let elapsed = now_ms.saturating_sub(last_kick_ms);
        if timeout_passed(elapsed, self.timeout_ns) && !self.triggered {
            self.triggered = true;
            return true;
        }
        false
    }

    pub fn is_triggered(&self) -> (b: bool)
        ensures
            b == self.is_tripped(),
    {
        self.triggered
    }

    /// Clear the timeout and kick.
    pub fn reset(&mut self)
        ensures
            !final(self).is_tripped(),
            final(self).name_view() == old(self).name_view(),
            final(self).timeout_view() == old(self).timeout_view(),
    {
        self.triggered = false;
        self.kick();
    }
}

/// Handle to kick a watchdog from another context.
#[derive(Clone)]
pub struct WatchdogKicker {
    last_kick: Arc<AtomicU64>,
}

impl WatchdogKicker {
    /// The last-kick record this handle writes.
    pub closed spec fn kick_record(&self) -> AtomicU64 {
        *self.last_kick
    }

    pub fn kick(&self) {
        self.last_kick.store(unix_millis_now(), Ordering::Relaxed);
    }
}

} // verus!
