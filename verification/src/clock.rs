//! Time sources: a monotonic clock for effects and kill streaks, and the wall
//! clock for event timestamps.
use std::time::{Duration, Instant, SystemTime, UNIX_EPOCH};

use vstd::prelude::*;

verus! {

#[verifier::external_type_specification]
#[verifier::external_body]
pub struct ExInstant(Instant);

#[verifier::external_type_specification]
#[verifier::external_body]
pub struct ExSystemTime(SystemTime);

/// `std::time::Instant::now`. Nothing is stated of the instant it returns.
#[verifier::external_body]
fn instant_now() -> Instant {
    Instant::now()
}

/// `std::time::Instant::elapsed`: the time since `origin`. Nothing is stated
/// of it: it depends on when the call is made.
#[verifier::external_body]
fn elapsed_since_instant(origin: &Instant) -> Duration {
    origin.elapsed()
}

/// `std::time::Duration::as_micros`, as a `u64`. A `Duration` is opaque here,
/// so nothing is stated of the count.
#[verifier::external_body]
fn duration_micros(d: &Duration) -> u64 {
    d.as_micros() as u64
}

/// `std::time::Duration::as_nanos`, as a `u64`. A `Duration` is opaque here,
/// so nothing is stated of the count.
#[verifier::external_body]
fn duration_nanos(d: &Duration) -> u64 {
    d.as_nanos() as u64
}

/// `std::time::Duration::as_millis`, as a `u64`. A `Duration` is opaque here,
/// so nothing is stated of the count.
#[verifier::external_body]
fn duration_millis(d: &Duration) -> u64 {
    d.as_millis() as u64
}

/// `std::time::SystemTime::now`. Nothing is stated of the time it returns.
#[verifier::external_body]
fn system_now() -> SystemTime {
    SystemTime::now()
}

/// `std::time::SystemTime::duration_since` the Unix epoch, or `None` where
/// `at` lies before the epoch. Nothing is stated of which: a `SystemTime` is
/// opaque here.
#[verifier::external_body]
fn duration_since_epoch(at: &SystemTime) -> Option<Duration> {
    match at.duration_since(UNIX_EPOCH) {
        Ok(d) => Some(d),
        Err(_) => None,
    }
}

/// The wall clock now, in whole milliseconds since the Unix epoch, or `None`
/// where the clock stands before the epoch.
pub fn wall_clock_millis() -> Option<u64> {
    let now = system_now();
    match duration_since_epoch(&now) {
        Some(d) => Some(duration_millis(&d)),
        None => None,
    }
}

/// A reading of a monotonic clock in nanoseconds since the clock started.
/// Readings in nanoseconds and in microseconds have types of their own, so
/// that one is not taken for the other.
#[derive(Debug, Clone, Copy, PartialEq, Eq, Structural)]
pub struct Nanos(pub u64);

/// A monotonic clock that counts from the moment it was started.
pub struct MonotonicClock {
    origin: Instant,
}

impl MonotonicClock {
    /// A clock that starts now.
    pub fn start() -> (r: MonotonicClock) {
        MonotonicClock { origin: instant_now() }
    }

    /// Whole microseconds since the clock started.
    pub fn now_us(&self) -> u64 {
        duration_micros(&elapsed_since_instant(&self.origin))
    }

    /// Nanoseconds since the clock started.
    pub fn now_ns(&self) -> Nanos {
        Nanos(duration_nanos(&elapsed_since_instant(&self.origin)))
    }
}

} // verus!
