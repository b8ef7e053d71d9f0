//! Points in time as plain integers.
use vstd::prelude::*;

verus! {

/// A moment in UTC: whole seconds since the Unix epoch, and the nanoseconds
/// past that second (a leap second may push them over one billion).
#[derive(Clone, Copy, Debug, PartialEq, Eq, Structural)]
pub struct Timestamp {
    pub secs: i64,
    pub nanos: u32,
}

impl Timestamp {
    /// Nanoseconds since the epoch.
    pub open spec fn total_nanos(self) -> int {
        self.secs * 1_000_000_000 + self.nanos
    }

    /// `self` is no later than `other`.
    pub open spec fn spec_not_after(self, other: Timestamp) -> bool {
        self.secs < other.secs || (self.secs == other.secs && self.nanos <= other.nanos)
    }

    pub fn not_after(self, other: Timestamp) -> (r: bool)
        ensures
            r == self.spec_not_after(other),
            (self.nanos < 1_000_000_000 && other.nanos < 1_000_000_000) ==> r == (
            self.total_nanos() <= other.total_nanos()),
    {
        self.secs < other.secs || (self.secs == other.secs && self.nanos <= other.nanos)
    }
}

/// Whole milliseconds from `from` to `to`, rounded toward zero; negative when
/// `to` is the earlier of the two.
pub open spec fn spec_elapsed_millis(from: Timestamp, to: Timestamp) -> int {
    let d = to.total_nanos() - from.total_nanos();
    if d >= 0 {
        d / 1_000_000
    } else {
        -((-d) / 1_000_000)
    }
}

pub fn elapsed_millis(from: Timestamp, to: Timestamp) -> (ms: i128)
    ensures
        ms == spec_elapsed_millis(from, to),
{
    let ds: i128 = to.secs as i128 - from.secs as i128;
    let dn: i128 = to.nanos as i128 - from.nanos as i128;
    let d: i128 = ds * 1_000_000_000 + dn;
    if d >= 0 {
        d / 1_000_000
    } else {
        0 - (0 - d) / 1_000_000
    }
}

} // verus!
