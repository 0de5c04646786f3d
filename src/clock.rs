use vstd::prelude::*;

verus! {

/// Nanoseconds in one second.
pub const NANOS_PER_SEC: i32 = 1_000_000_000;

/// A wall-clock instant: whole seconds since the Unix epoch and the
/// nanoseconds past that second.
#[derive(Clone, Copy, Debug, PartialEq, Eq, Structural)]
pub struct Timestamp {
    pub sec: i64,
    pub nsec: i32,
}

impl Timestamp {
    /// The nanosecond part lies within one second.
    pub open spec fn wf(self) -> bool {
        0 <= self.nsec < NANOS_PER_SEC
    }

    /// The instant as a count of nanoseconds since the epoch.
    pub open spec fn nanos(self) -> int {
        self.sec as int * NANOS_PER_SEC as int + self.nsec as int
    }

    /// `self` is not later than `other`.
    pub open spec fn spec_le(self, other: Timestamp) -> bool {
        self.nanos() <= other.nanos()
    }

    /// An instant from whole seconds and nanoseconds.
    pub fn new(sec: i64, nsec: i32) -> (r: Timestamp)
        requires
            0 <= nsec < NANOS_PER_SEC,
        ensures
            r.sec == sec,
            r.nsec == nsec,
            r.wf(),
    {
        Timestamp { sec, nsec }
    }
}

/// Relies on time::get_time: the current wall-clock time as seconds and
/// nanoseconds since the epoch; its constructor asserts that the
/// nanoseconds lie in `0..1_000_000_000`.
#[verifier::external_body]
pub(crate) fn now() -> (r: Timestamp)
    ensures
        r.wf(),
{
    let t = time::get_time();
    Timestamp { sec: t.sec, nsec: t.nsec }
}

} // verus!
