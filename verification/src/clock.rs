//! Wall-clock instants and signed durations, both counted in nanoseconds.

use vstd::prelude::*;

verus! {

/// Nanoseconds in one millisecond.
pub const NANOS_PER_MILLI: i128 = 1_000_000;

/// Nanoseconds in one second.
pub const NANOS_PER_SECOND: i128 = 1_000_000_000;

/// A signed span of time in nanoseconds.
#[derive(Clone, Copy, Debug, PartialEq, Eq, Structural)]
pub struct Duration {
    pub nanos: i128,
}

/// A point in time: nanoseconds since the Unix epoch, UTC.
#[derive(Clone, Copy, Debug, PartialEq, Eq, Structural)]
pub struct Instant {
    pub nanos: i64,
}

/// The value of `v` pulled into the range of `i128`.
pub open spec fn clamp_i128(v: int) -> i128 {
    if v > i128::MAX {
        i128::MAX
    } else if v < i128::MIN {
        i128::MIN
    } else {
        v as i128
    }
}

/// The value of `v` pulled into the range of `i64`.
pub open spec fn clamp_i64(v: int) -> i64 {
    if v > i64::MAX {
        i64::MAX
    } else if v < i64::MIN {
        i64::MIN
    } else {
        v as i64
    }
}

impl Duration {
    /// The empty span.
    pub fn zero() -> (d: Duration)
        ensures
            d.nanos == 0,
    {
        Duration { nanos: 0 }
    }

    /// A span of `ms` milliseconds.
    pub fn milliseconds(ms: i64) -> (d: Duration)
        ensures
            d.nanos == ms * NANOS_PER_MILLI,
    {
        Duration { nanos: ms as i128 * NANOS_PER_MILLI }
    }

    /// A span of `s` seconds.
    pub fn seconds(s: i64) -> (d: Duration)
        ensures
            d.nanos == s * NANOS_PER_SECOND,
    {
        Duration { nanos: s as i128 * NANOS_PER_SECOND }
    }

    /// Whether the span is strictly longer than nothing.
    pub fn is_positive(&self) -> (r: bool)
        ensures
            r == (self.nanos > 0),
    {
        self.nanos > 0
    }

    /// Whether `self` is strictly longer than `other`.
    pub fn is_longer_than(&self, other: Duration) -> (r: bool)
        ensures
            r == (self.nanos > other.nanos),
    {
        self.nanos > other.nanos
    }

    /// Sum of two spans, held at the ends of the representable range.
    pub fn plus(self, other: Duration) -> (d: Duration)
        ensures
            d.nanos == clamp_i128(self.nanos + other.nanos),
    {
        if other.nanos > 0 && self.nanos > i128::MAX - other.nanos {
            Duration { nanos: i128::MAX }
        } else if other.nanos < 0 && self.nanos < i128::MIN - other.nanos {
            Duration { nanos: i128::MIN }
        } else {
            Duration { nanos: self.nanos + other.nanos }
        }
    }

    /// Difference of two spans, held at the ends of the representable range.
    pub fn minus(self, other: Duration) -> (d: Duration)
        ensures
            d.nanos == clamp_i128(self.nanos - other.nanos),
    {
        if other.nanos < 0 && self.nanos > i128::MAX + other.nanos {
            Duration { nanos: i128::MAX }
        } else if other.nanos > 0 && self.nanos < i128::MIN + other.nanos {
            Duration { nanos: i128::MIN }
        } else {
            Duration { nanos: self.nanos - other.nanos }
        }
    }
}

/// Reads the system clock through `time::OffsetDateTime::now_utc` and hands
/// back its Unix timestamp in nanoseconds. Nothing is claimed of the value:
/// two reads may give any two numbers.
#[verifier::external_body]
fn utc_unix_nanos() -> i128 {
    time::OffsetDateTime::now_utc().unix_timestamp_nanos()
}

impl Instant {
    /// The instant `nanos` nanoseconds after the epoch, held at the ends of
    /// the representable range.
    pub fn from_unix_nanos(nanos: i128) -> (t: Instant)
        ensures
            t.nanos == clamp_i64(nanos as int),
    {
        if nanos > i64::MAX as i128 {
            Instant { nanos: i64::MAX }
        } else if nanos < i64::MIN as i128 {
            Instant { nanos: i64::MIN }
        } else {
            Instant { nanos: nanos as i64 }
        }
    }

    /// The present moment, read from the system clock.
    pub fn now() -> Instant {
        Instant::from_unix_nanos(utc_unix_nanos())
    }

    /// The span from `earlier` to `self`; negative when `earlier` is later.
    pub fn since(self, earlier: Instant) -> (d: Duration)
        ensures
            d.nanos == self.nanos - earlier.nanos,
    {
        Duration { nanos: self.nanos as i128 - earlier.nanos as i128 }
    }

    /// The span from `self` to `now`.
    pub fn elapsed_at(&self, now: Instant) -> (d: Duration)
        ensures
            d == now.spec_since(*self),
    {
        now.since(*self)
    }

    /// The span from `self` to the present moment of the system clock.
    pub fn elapsed(&self) -> (d: Duration)
        ensures
            exists|now: Instant| d == #[trigger] now.spec_since(*self),
    {
        self.elapsed_at(Instant::now())
    }

    /// `self.since(earlier)` as a specification value.
    pub open spec fn spec_since(self, earlier: Instant) -> Duration {
        Duration { nanos: (self.nanos - earlier.nanos) as i128 }
    }
}

} // verus!
