//! Plain time values: durations, monotonic instants, and wall-clock times.
//!
//! All three count whole nanoseconds. The surrounding application reads the
//! real clocks and hands the readings in, so every decision is a function of
//! the values it is given.

use vstd::prelude::*;

verus! {

/// Nanoseconds in one second.
pub const NANOS_PER_SEC: u64 = 1_000_000_000;

/// Nanoseconds in one millisecond.
pub const NANOS_PER_MILLI: u64 = 1_000_000;

/// A span of time in whole nanoseconds.
#[derive(Clone, Copy, Debug, PartialEq, Eq, PartialOrd, Ord, Hash, Structural)]
pub struct Duration {
    /// Length in nanoseconds.
    pub nanos: u64,
}

/// A reading of the monotonic clock, in nanoseconds since an arbitrary origin
/// that stays fixed for the life of the process.
#[derive(Clone, Copy, Debug, PartialEq, Eq, PartialOrd, Ord, Hash, Structural)]
pub struct Instant {
    /// Nanoseconds since the origin.
    pub nanos: u64,
}

/// A wall-clock reading, in nanoseconds since the Unix epoch.
#[derive(Clone, Copy, Debug, PartialEq, Eq, PartialOrd, Ord, Hash, Structural)]
pub struct SystemTime {
    /// Nanoseconds since the epoch.
    pub nanos: u64,
}

impl Duration {
    /// A span of `secs` seconds.
    pub fn from_secs(secs: u64) -> (r: Duration)
        requires
            secs * NANOS_PER_SEC <= u64::MAX,
        ensures
            r.nanos == secs * NANOS_PER_SEC,
    {
        Duration { nanos: secs * NANOS_PER_SEC }
    }

    /// A span of `millis` milliseconds.
    pub fn from_millis(millis: u64) -> (r: Duration)
        requires
            millis * NANOS_PER_MILLI <= u64::MAX,
        ensures
            r.nanos == millis * NANOS_PER_MILLI,
    {
        Duration { nanos: millis * NANOS_PER_MILLI }
    }

    /// The shorter of two spans.
    pub fn min(self, other: Duration) -> (r: Duration)
        ensures
            r == if other.nanos < self.nanos { other } else { self },
    {
        if other.nanos < self.nanos { other } else { self }
    }
}

/// A nanosecond count `span` later; a sum beyond the representable range
/// stops at its end.
pub open spec fn nanos_after(nanos: u64, span: u64) -> u64 {
    if nanos + span > u64::MAX { u64::MAX } else { (nanos + span) as u64 }
}

/// The instant `span` after `at`.
pub open spec fn instant_after(at: Instant, span: u64) -> Instant {
    Instant { nanos: nanos_after(at.nanos, span) }
}

/// The wall-clock time `span` after `at`.
pub open spec fn wall_after(at: SystemTime, span: u64) -> SystemTime {
    SystemTime { nanos: nanos_after(at.nanos, span) }
}

/// Nanoseconds from `earlier` to `later`, or zero when `earlier` lies ahead.
pub open spec fn elapsed(earlier: Instant, later: Instant) -> u64 {
    if earlier.nanos <= later.nanos { (later.nanos - earlier.nanos) as u64 } else { 0 }
}

impl Instant {
    /// The instant `span` after this one.
    pub fn after(self, span: Duration) -> (r: Instant)
        ensures
            r == instant_after(self, span.nanos),
    {
        Instant { nanos: self.nanos.saturating_add(span.nanos) }
    }

    /// Time elapsed since `earlier`, or zero when `earlier` lies ahead.
    pub fn duration_since(self, earlier: Instant) -> (r: Duration)
        ensures
            r.nanos == elapsed(earlier, self),
    {
        if earlier.nanos <= self.nanos {
            Duration { nanos: self.nanos - earlier.nanos }
        } else {
            Duration { nanos: 0 }
        }
    }
}

impl SystemTime {
    /// The Unix epoch.
    pub fn unix_epoch() -> (r: SystemTime)
        ensures
            r.nanos == 0,
    {
        SystemTime { nanos: 0 }
    }

    /// The wall-clock time `span` after this one.
    pub fn after(self, span: Duration) -> (r: SystemTime)
        ensures
            r == wall_after(self, span.nanos),
    {
        SystemTime { nanos: self.nanos.saturating_add(span.nanos) }
    }
}

} // verus!
