//! Points in time, as far as files and the clock give them.

use vstd::prelude::*;

verus! {

/// How many nanoseconds a second has.
pub const NANOS_PER_SECOND: u128 = 1_000_000_000;

/// A point in time: the seconds and nanoseconds that have passed since the
/// beginning of 1970.
#[derive(Debug, Clone, Copy, PartialEq, Eq)]
pub struct Timestamp {
    pub seconds: u64,
    pub nanos: u32,
}

impl Timestamp {
    /// The nanoseconds between the beginning of 1970 and this point.
    pub open spec fn when(&self) -> int {
        self.seconds * NANOS_PER_SECOND + self.nanos
    }

    /// The nanoseconds between the beginning of 1970 and this point.
    pub fn total_nanos(&self) -> (n: u128)
        ensures
            n == self.when(),
            n <= 0xFFFF_FFFF_FFFF_FFFF * NANOS_PER_SECOND + 0xFFFF_FFFF,
    {
        self.seconds as u128 * NANOS_PER_SECOND + self.nanos as u128
    }

    /// Whether this point lies at or after `other`.
    pub fn is_at_or_after(&self, other: &Timestamp) -> (b: bool)
        ensures
            b == (self.when() >= other.when()),
    {
        self.total_nanos() >= other.total_nanos()
    }

    /// Whether this point lies `age` seconds or more before `now`.
    pub fn is_older_than(&self, now: &Timestamp, age: u64) -> (b: bool)
        ensures
            b == (self.when() <= now.when() - age * NANOS_PER_SECOND),
    {
        self.total_nanos() + age as u128 * NANOS_PER_SECOND <= now.total_nanos()
    }
}

} // verus!
