//! Points in time, as the records carry them.

use vstd::prelude::*;

verus! {

/// A point in time in UTC: whole seconds since the Unix epoch, and the
/// nanoseconds that have passed within that second.
#[derive(Clone, Copy, Debug, PartialEq, Eq, Structural, Hash)]
pub struct DateTime {
    pub secs: i64,
    pub nanos: u32,
}

impl DateTime {
    /// Position on the time line: a later point has the greater position.
    pub open spec fn position(self) -> int {
        self.secs as int * 0x1_0000_0000 + self.nanos as int
    }

    /// The Unix epoch itself.
    pub fn epoch() -> (t: DateTime)
        ensures
            t == (DateTime { secs: 0, nanos: 0 }),
            t.position() == 0,
    {
        DateTime { secs: 0, nanos: 0 }
    }

    /// Whether `self` lies strictly after `other`.
    pub fn is_after(&self, other: &DateTime) -> (b: bool)
        ensures
            b == (self.position() > other.position()),
    {
        self.secs > other.secs || (self.secs == other.secs && self.nanos > other.nanos)
    }

    /// The later of two points in time; `self` where they are the same.
    pub fn latest(self, other: DateTime) -> (t: DateTime)
        ensures
            t == if other.position() > self.position() { other } else { self },
    {
        if other.is_after(&self) {
            other
        } else {
            self
        }
    }
}

/// Two points in time with the same position are the same point.
pub proof fn lemma_position_injective(a: DateTime, b: DateTime)
    requires
        a.position() == b.position(),
    ensures
        a == b,
{
}

} // verus!
