//! The timestamp reconstructor: turns a 64-bit nanosecond count since the
//! Unix epoch into a second/nanosecond timestamp, mapping a zero count to the
//! wall-clock time of the call.

use vstd::prelude::*;

verus! {

/// An instant as seconds since the Unix epoch plus nanoseconds into the
/// second. The nanosecond part stays below two seconds' worth so that a
/// leap-second reading from the wall clock is representable.
#[derive(Debug, Clone, Copy, PartialEq, Eq, Structural)]
pub struct Timestamp {
    pub secs: i64,
    pub nanos: u32,
}

impl Timestamp {
    /// The nanosecond part names a point inside (at most) a double-length
    /// leap second.
    pub open spec fn wf(self) -> bool {
        self.nanos < 2_000_000_000
    }

    /// Strict ordering by seconds, then nanoseconds.
    pub open spec fn spec_lt(self, other: Timestamp) -> bool {
        self.secs < other.secs || (self.secs == other.secs && self.nanos < other.nanos)
    }

    /// Whether this instant is strictly before `other`.
    pub fn is_before(&self, other: &Timestamp) -> (r: bool)
        ensures
            r == self.spec_lt(*other),
    {
        self.secs < other.secs || (self.secs == other.secs && self.nanos < other.nanos)
    }
}

/// Relies on chrono's `Utc::now`, `DateTime::timestamp` and
/// `DateTime::timestamp_subsec_nanos` for the wall-clock reading: any
/// returned instant has a non-negative second count (a pre-epoch or
/// unrepresentable clock aborts inside chrono instead of returning), and the
/// nanosecond part stays below two seconds' worth even during a leap second.
#[verifier::external_body]
pub(crate) fn now_timestamp() -> (r: Timestamp)
    ensures
        r.wf(),
        r.secs >= 0,
{
    let t = chrono::Utc::now();
    Timestamp { secs: t.timestamp(), nanos: t.timestamp_subsec_nanos() }
}

/// The current wall-clock time.
pub fn wall_clock_now() -> (r: Timestamp)
    ensures
        r.wf(),
        r.secs >= 0,
{
    now_timestamp()
}

/// Reconstructs a timestamp from a nanosecond count since the Unix epoch.
/// A zero count means the producer omitted the timestamp; it yields the
/// wall-clock time of the call. Every non-zero 64-bit count names a
/// representable instant, so the reconstruction itself cannot fail.
pub fn timestamp_from_nanos(nanos: u64) -> (r: Timestamp)
    ensures
        r.wf(),
        nanos != 0 ==> r.secs == nanos as int / 1_000_000_000 && r.nanos == nanos as int
            % 1_000_000_000,
        nanos == 0 ==> r.secs >= 0,
{
    if nanos == 0 {
        return now_timestamp();
    }
    let secs_u: u64 = nanos / 1_000_000_000;
    let ns_u: u64 = nanos % 1_000_000_000;
    Timestamp { secs: secs_u as i64, nanos: ns_u as u32 }
}

} // verus!
