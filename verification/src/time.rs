//! Points in time, as spans record them.

use vstd::prelude::*;

verus! {

/// A point in time: the nanoseconds that have passed since the Unix epoch.
#[derive(Debug, Clone, Copy, PartialEq, Eq, Structural)]
pub struct Timestamp {
    pub unix_nanos: u64,
}

/// Whole microseconds in `nanos` nanoseconds: what is left over is cut off.
pub open spec fn whole_micros(nanos: int) -> int {
    nanos / 1000
}

/// `SystemTime::now`, as the nanoseconds since the Unix epoch: zero if the
/// clock of the system stands before the epoch.
#[verifier::external_body]
fn unix_time_nanos() -> u128 {
    match std::time::SystemTime::now().duration_since(std::time::UNIX_EPOCH) {
        Ok(elapsed) => elapsed.as_nanos(),
        Err(_) => 0,
    }
}

impl Timestamp {
    /// The point in time `unix_nanos` nanoseconds after the Unix epoch, or the
    /// latest point that a `Timestamp` can hold if that is earlier.
    pub fn saturating_from_unix_nanos(unix_nanos: u128) -> (r: Timestamp)
        ensures
            r.unix_nanos == if unix_nanos <= u64::MAX {
                unix_nanos as int
            } else {
                u64::MAX as int
            },
    {
        if unix_nanos <= u64::MAX as u128 {
            Timestamp { unix_nanos: unix_nanos as u64 }
        } else {
            Timestamp { unix_nanos: u64::MAX }
        }
    }

    /// The current time, as the clock of the system gives it, or the latest
    /// point that a `Timestamp` can hold if that is earlier.
    pub fn now() -> Timestamp {
        Timestamp::saturating_from_unix_nanos(unix_time_nanos())
    }

    /// The point in time `unix_nanos` nanoseconds after the Unix epoch.
    pub fn from_unix_nanos(unix_nanos: u64) -> (r: Timestamp)
        ensures
            r.unix_nanos == unix_nanos,
    {
        Timestamp { unix_nanos }
    }

    /// The point in time `unix_micros` microseconds after the Unix epoch, or
    /// the latest point that a `Timestamp` can hold if that is earlier.
    pub fn from_unix_micros(unix_micros: u64) -> (r: Timestamp)
        ensures
            r.unix_nanos == if unix_micros * 1000 <= u64::MAX {
                unix_micros * 1000
            } else {
                u64::MAX as int
            },
    {
        if unix_micros <= u64::MAX / 1000 {
            Timestamp { unix_nanos: unix_micros * 1000 }
        } else {
            Timestamp { unix_nanos: u64::MAX }
        }
    }

    /// Nanoseconds since the Unix epoch.
    pub fn unix_nanos(&self) -> (r: u64)
        ensures
            r == self.unix_nanos,
    {
        self.unix_nanos
    }

    /// Whole microseconds since the Unix epoch.
    pub fn unix_micros(&self) -> (r: i64)
        ensures
            r == whole_micros(self.unix_nanos as int),
    {
        (self.unix_nanos / 1000) as i64
    }

    /// Whether this point in time is not later than `other`.
    pub fn is_at_or_before(&self, other: &Timestamp) -> (r: bool)
        ensures
            r == (self.unix_nanos <= other.unix_nanos),
    {
        self.unix_nanos <= other.unix_nanos
    }

    /// The later of this point in time and `other`.
    pub fn latest(self, other: Timestamp) -> (r: Timestamp)
        ensures
            r.unix_nanos == if self.unix_nanos >= other.unix_nanos {
                self.unix_nanos
            } else {
                other.unix_nanos
            },
    {
        if self.unix_nanos >= other.unix_nanos {
            self
        } else {
            other
        }
    }

    /// Whole microseconds from this point in time to `later`, or none if
    /// `later` is the earlier of the two.
    pub fn micros_until(&self, later: &Timestamp) -> (r: i64)
        ensures
            r == if self.unix_nanos <= later.unix_nanos {
                whole_micros(later.unix_nanos - self.unix_nanos)
            } else {
                0
            },
    {
        if self.unix_nanos <= later.unix_nanos {
            ((later.unix_nanos - self.unix_nanos) / 1000) as i64
        } else {
            0
        }
    }
}

} // verus!
