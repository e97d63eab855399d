//! Reading durations and the wall clock. `Duration` and `SystemTime` are
//! opaque to the verifier, so these calls state nothing about their results.
use vstd::prelude::*;

verus! {

#[verifier::external_type_specification]
#[verifier::external_body]
pub struct ExSystemTime(std::time::SystemTime);

/// `Duration::as_micros`. Nothing is stated of the result: `Duration` has no
/// view.
#[verifier::external_body]
fn duration_micros(d: &std::time::Duration) -> (us: u128) {
    d.as_micros()
}

/// Whole microseconds of a duration, narrowed (truncated) to the 64 bits the
/// clock stores.
pub(crate) fn duration_micros_u64(d: std::time::Duration) -> (us: u64) {
    duration_micros(&d) as u64
}

/// `Duration::from_micros`. Nothing is stated of the result: `Duration` has
/// no view.
#[verifier::external_body]
pub(crate) fn duration_from_micros(us: u64) -> (d: std::time::Duration) {
    std::time::Duration::from_micros(us)
}

/// `Duration::as_millis`. Nothing is stated of the result: `Duration` has no
/// view.
#[verifier::external_body]
fn duration_millis(d: &std::time::Duration) -> (ms: u128) {
    d.as_millis()
}

/// `SystemTime::now`: the wall clock, of which nothing is stated.
#[verifier::external_body]
fn system_now() -> (t: std::time::SystemTime) {
    std::time::SystemTime::now()
}

/// `SystemTime::duration_since` the Unix epoch, `None` for a time before the
/// epoch. Nothing is stated of the result: it depends on the time given.
#[verifier::external_body]
fn since_unix_epoch(t: &std::time::SystemTime) -> (d: Option<std::time::Duration>) {
    t.duration_since(std::time::UNIX_EPOCH).ok()
}

/// Milliseconds since the Unix epoch by the wall clock (truncated to 64
/// bits), 0 for a clock set before the epoch.
pub(crate) fn unix_millis_now() -> (ms: u64) {
    let now = system_now();
    match since_unix_epoch(&now) {
        Some(d) => duration_millis(&d) as u64,
        None => 0,
    }
}

} // verus!
