//! Readings of the system's clocks.
//!
//! Nothing can be proved of what a clock returns. The functions here only
//! fetch a reading; every rule that depends on the time is stated in a
//! function that takes the reading as an argument.

use vstd::prelude::*;
use std::time::{Instant, SystemTime, UNIX_EPOCH};

verus! {

/// `std::time::Instant`, a point on the monotonic clock. Opaque to the
/// verifier: it is only created, kept and handed back to `elapsed_since`.
#[verifier::external_type_specification]
#[verifier::external_body]
pub struct ExInstant(Instant);

/// A span of time as whole seconds and the nanoseconds beyond them.
#[derive(Debug, Clone, Copy, PartialEq, Eq, Structural)]
pub struct ClockReading {
    pub secs: u64,
    pub subsec_nanos: u32,
}

/// `std::time::SystemTime`, a point on the wall clock. Opaque to the
/// verifier: it is only created and handed to `since_unix_epoch`.
#[verifier::external_type_specification]
#[verifier::external_body]
pub struct ExSystemTime(SystemTime);

/// Reads the wall clock through `SystemTime::now`.
#[verifier::external_body]
pub(crate) fn system_now() -> (time: SystemTime) {
    SystemTime::now()
}

/// The span from the Unix epoch to `time`, through
/// `SystemTime::duration_since`, or `None` where `time` lies before the epoch.
/// Nothing is claimed of the span.
#[verifier::external_body]
pub(crate) fn since_unix_epoch(time: &SystemTime) -> (reading: Option<ClockReading>) {
    match time.duration_since(UNIX_EPOCH) {
        Ok(d) => Some(ClockReading { secs: d.as_secs(), subsec_nanos: d.subsec_nanos() }),
        Err(_) => None,
    }
}

/// The time since the Unix epoch by the wall clock, or `None` where the clock
/// is set before it.
pub(crate) fn wall_clock() -> (reading: Option<ClockReading>) {
    let now = system_now();
    since_unix_epoch(&now)
}

/// Reads the monotonic clock through `Instant::now`.
#[verifier::external_body]
pub(crate) fn monotonic_now() -> (instant: Instant) {
    Instant::now()
}

/// The time that has passed since `start`, through `Instant::elapsed`.
/// Nothing is claimed of the reading.
#[verifier::external_body]
pub(crate) fn elapsed_since(start: &Instant) -> (reading: ClockReading) {
    let d = start.elapsed();
    ClockReading { secs: d.as_secs(), subsec_nanos: d.subsec_nanos() }
}

/// The nanoseconds in a reading, reduced modulo 2^64.
pub open spec fn nanos_model(reading: ClockReading) -> int {
    (reading.secs * 1_000_000_000 + reading.subsec_nanos) % 0x1_0000_0000_0000_0000
}

impl ClockReading {
    /// The reading in nanoseconds, keeping the low 64 bits.
    pub fn as_nanos(&self) -> (nanos: u64)
        ensures
            nanos == nanos_model(*self),
    {
        let wide: u128 = (self.secs as u128) * 1_000_000_000u128 + (self.subsec_nanos as u128);
        (wide % 0x1_0000_0000_0000_0000u128) as u64
    }
}

/// What a reading of the wall clock counts for in nanoseconds: zero where
/// the clock is set before the Unix epoch.
pub open spec fn epoch_nanos_model(reading: Option<ClockReading>) -> u64 {
    match reading {
        Some(r) => nanos_model(r) as u64,
        None => 0,
    }
}

/// What a reading of the wall clock counts for in whole seconds: zero where
/// the clock is set before the Unix epoch.
pub open spec fn epoch_secs_model(reading: Option<ClockReading>) -> u64 {
    match reading {
        Some(r) => r.secs,
        None => 0,
    }
}

/// The nanoseconds that a reading of the wall clock counts for.
pub fn nanos_of(reading: Option<ClockReading>) -> (nanos: u64)
    ensures
        nanos == epoch_nanos_model(reading),
{
    match reading {
        Some(r) => r.as_nanos(),
        None => 0,
    }
}

/// The whole seconds that a reading of the wall clock counts for.
pub fn secs_of(reading: Option<ClockReading>) -> (secs: u64)
    ensures
        secs == epoch_secs_model(reading),
{
    match reading {
        Some(r) => r.secs,
        None => 0,
    }
}

/// Nanoseconds since the Unix epoch by the wall clock: `nanos_of` the reading.
pub(crate) fn epoch_nanos() -> u64 {
    nanos_of(wall_clock())
}

/// Whole seconds since the Unix epoch by the wall clock: `secs_of` the
/// reading.
pub(crate) fn epoch_secs() -> u64 {
    secs_of(wall_clock())
}

} // verus!
