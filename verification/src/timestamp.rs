//! Points in time, counted in nanoseconds since the Unix epoch.

use vstd::prelude::*;

verus! {

/// The number of nanoseconds in a second.
pub const NANOS_PER_SECOND: u64 = 1_000_000_000;

/// A point in time: nanoseconds since the Unix epoch.
#[derive(Clone, Copy, Debug, PartialEq, Eq, Structural, Hash)]
pub struct Timestamp {
    pub nanoseconds: u64,
}

impl Timestamp {
    /// The point in time that lies `seconds` after this one, in
    /// nanoseconds since the epoch.
    pub open spec fn plus_seconds(self, seconds: u64) -> int {
        self.nanoseconds + seconds * NANOS_PER_SECOND
    }

    /// The timestamp that lies this many nanoseconds after the epoch.
    pub fn from_nanoseconds(nanoseconds: u64) -> (t: Timestamp)
        ensures
            t == (Timestamp { nanoseconds }),
    {
        Timestamp { nanoseconds }
    }

    /// Nanoseconds since the epoch.
    pub fn nanoseconds(self) -> (n: u64)
        ensures
            n == self.nanoseconds,
    {
        self.nanoseconds
    }

    /// Whole seconds since the epoch.
    pub fn seconds(self) -> (s: u64)
        ensures
            s == self.nanoseconds / NANOS_PER_SECOND,
    {
        self.nanoseconds / NANOS_PER_SECOND
    }

    /// Whether this point in time lies strictly before the one `seconds`
    /// after `other`.
    pub fn is_before_plus(self, other: Timestamp, seconds: u64) -> (r: bool)
        ensures
            r == (self.nanoseconds < other.plus_seconds(seconds)),
    {
        let span: u128 = (seconds as u128) * 1_000_000_000u128;
        let limit: u128 = other.nanoseconds as u128 + span;
        (self.nanoseconds as u128) < limit
    }
}

} // verus!
