//! Points in time as the kernel hands them out: seconds and nanoseconds.

use vstd::prelude::*;

verus! {

/// The number of nanoseconds in a second.
pub const NANOS_PER_SEC: i64 = 1_000_000_000;

/// A point in time or a span of time: whole seconds, and nanoseconds on top of
/// them. The two fields hold whatever they were given; a value is normal where
/// the nanoseconds are less than a second.
#[derive(Clone, Copy, Debug, PartialEq, Eq, Structural)]
pub struct TimeSpec {
    pub tv_sec: i64,
    pub tv_nsec: i64,
}

impl TimeSpec {
    /// The value in nanoseconds.
    pub open spec fn nanos(self) -> int {
        self.tv_sec * NANOS_PER_SEC + self.tv_nsec
    }

    /// Whether the nanoseconds are at least zero and less than a second.
    pub open spec fn normal(self) -> bool {
        0 <= self.tv_nsec < NANOS_PER_SEC
    }
}

/// The distance between two numbers.
pub open spec fn distance(a: int, b: int) -> int {
    if a <= b {
        b - a
    } else {
        a - b
    }
}

/// The time between `start` and `stop`, whichever of them is the later one,
/// as a normal value. There is none where its seconds do not fit the field.
pub fn timespecff_diff(start: &TimeSpec, stop: &TimeSpec) -> (result: Option<TimeSpec>)
    ensures
        match result {
            Some(span) => span.normal() && span.nanos() == distance(start.nanos(), stop.nanos()),
            None => distance(start.nanos(), stop.nanos()) / (NANOS_PER_SEC as int) > i64::MAX,
        },
{
    let from: i128 = start.tv_sec as i128 * 1_000_000_000 + start.tv_nsec as i128;
    let to: i128 = stop.tv_sec as i128 * 1_000_000_000 + stop.tv_nsec as i128;
    let span: i128 = if from <= to {
        to - from
    } else {
        from - to
    };
    let seconds: i128 = span / 1_000_000_000;
    let nanos: i128 = span % 1_000_000_000;
    if seconds > i64::MAX as i128 {
        None
    } else {
        Some(TimeSpec { tv_sec: seconds as i64, tv_nsec: nanos as i64 })
    }
}

} // verus!
