//! Points in time, counted in nanoseconds from the Unix epoch.

use vstd::prelude::*;

verus! {

/// Nanoseconds in a second.
pub const NANOS_PER_SEC: i128 = 1_000_000_000;

/// Nanoseconds in 24 hours.
pub const NANOS_PER_DAY: i128 = 86_400_000_000_000;

/// A point in time: whole seconds since the Unix epoch, and nanoseconds on
/// top of them.
#[derive(Clone, Copy, Debug, PartialEq, Eq, Structural)]
pub struct Timestamp {
    /// Seconds since 1970-01-01T00:00:00Z.
    pub secs: i64,
    /// Nanoseconds on top of `secs`.
    pub nanos: u32,
}

/// A time that the system clock can give: at or after the Unix epoch, with
/// the nanoseconds within the second.
pub open spec fn clock_reading(t: Timestamp) -> bool {
    t.secs >= 0 && t.nanos < 1_000_000_000
}

impl Timestamp {
    /// The point in time as one number of nanoseconds since the Unix epoch.
    pub open spec fn as_nanos(self) -> int {
        self.secs * 1_000_000_000 + self.nanos
    }

    /// The point in time `secs` seconds and `nanos` nanoseconds after the
    /// Unix epoch.
    pub fn new(secs: i64, nanos: u32) -> (t: Timestamp)
        ensures
            t.secs == secs,
            t.nanos == nanos,
    {
        Timestamp { secs, nanos }
    }

    /// The point in time as one number of nanoseconds since the Unix epoch.
    pub fn total_nanos(&self) -> (n: i128)
        ensures
            n == self.as_nanos(),
    {
        (self.secs as i128) * NANOS_PER_SEC + (self.nanos as i128)
    }

    /// Whether this point in time is strictly later than `other`.
    pub fn is_after(&self, other: &Timestamp) -> (r: bool)
        ensures
            r == (self.as_nanos() > other.as_nanos()),
    {
        self.total_nanos() > other.total_nanos()
    }

    /// The nanoseconds from this point in time to `later`; negative where
    /// `later` is earlier.
    pub fn nanos_until(&self, later: &Timestamp) -> (n: i128)
        ensures
            n == later.as_nanos() - self.as_nanos(),
    {
        later.total_nanos() - self.total_nanos()
    }

    /// The time of the system clock.
    pub fn now() -> (t: Timestamp)
        ensures
            clock_reading(t),
    {
        system_clock()
    }
}

/// Reads the system clock with `chrono::Utc::now` and hands on its two parts,
/// `timestamp` and `timestamp_subsec_nanos`. The clock decides the result;
/// all that is claimed is that it lies at or after the Unix epoch and that
/// the nanoseconds stay within one second. `chrono::Utc::now` panics where
/// the system clock stands before the Unix epoch.
#[verifier::external_body]
fn system_clock() -> (t: Timestamp)
    ensures
        t.secs >= 0,
        t.nanos < 1_000_000_000,
{
    let now = chrono::Utc::now();
    Timestamp { secs: now.timestamp(), nanos: now.timestamp_subsec_nanos() }
}

} // verus!
