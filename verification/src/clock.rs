//! Points in time: seconds and nanoseconds since the Unix epoch, in UTC.

use vstd::prelude::*;

verus! {

/// An instant in UTC.
#[derive(Debug, Clone, Copy, PartialEq, Eq, Structural)]
pub struct Timestamp {
    /// Whole non-leap seconds since 1970-01-01T00:00:00Z.
    pub secs: i64,
    /// Nanoseconds since the last second boundary; a leap second is written
    /// with a value of one thousand million or more.
    pub nanos: u32,
}

impl Timestamp {
    /// Whether the nanosecond part is one that a clock can report.
    pub open spec fn valid(self) -> bool {
        self.nanos < 2_000_000_000
    }
}

/// Reads the clock with `chrono::Utc::now` and returns the instant's
/// `timestamp` and `timestamp_subsec_nanos`. The instant is whatever the clock
/// says; chrono keeps the nanosecond part below two thousand million.
#[verifier::external_body]
pub(crate) fn now_utc() -> (now: Timestamp)
    ensures
        now.valid(),
{
    let t = chrono::Utc::now();
    Timestamp { secs: t.timestamp(), nanos: t.timestamp_subsec_nanos() }
}

} // verus!
