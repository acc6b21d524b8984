//! The wall clock, in Coordinated Universal Time.

use vstd::prelude::*;

verus! {

/// The last second that the clock can show: 23:59:59 on 31 December 262142.
pub const LAST_SECOND: i64 = 8_210_266_876_799;

/// Nanoseconds in a second.
pub const NANOS_PER_SECOND: u32 = 1_000_000_000;

/// One reading of the clock: whole seconds since the Unix epoch, and the
/// nanoseconds since the last of them.
#[derive(Debug, Clone, Copy, PartialEq, Eq, Structural)]
pub struct Timestamp {
    pub secs: i64,
    pub nanos: u32,
}

/// Whether `secs` is a second that the clock can show.
pub open spec fn clock_second(secs: i64) -> bool {
    0 <= secs <= LAST_SECOND
}

/// Whether the time from `then` to `now` can be written as a number of seconds.
pub open spec fn span_fits(now: i64, then: i64) -> bool {
    i64::MIN <= now - then <= i64::MAX
}

/// Whether the time from `then` to any reading of the clock can be written as a number of
/// seconds.
pub open spec fn clock_comparable(then: i64) -> bool {
    LAST_SECOND - then <= i64::MAX
}

impl Timestamp {
    /// Whether the clock can show this reading.
    pub open spec fn valid(self) -> bool {
        clock_second(self.secs) && self.nanos < NANOS_PER_SECOND
    }
}

/// The RFC 3339 text that `chrono::DateTime::<chrono::Utc>::to_rfc3339` writes for the
/// moment `nanos` nanoseconds after second `secs` of the Unix epoch.
pub uninterp spec fn rfc3339_text(secs: i64, nanos: u32) -> Seq<char>;

/// `chrono::Utc::now`, taken apart by `timestamp` and `timestamp_subsec_nanos`.
///
/// Claims only that the reading is no earlier than the Unix epoch, no later than the
/// last day that `chrono` can hold, and within a proper second. The reading itself
/// depends on the machine. On a machine whose clock stands before the Unix epoch, or
/// beyond that last day, `chrono::Utc::now` panics.
#[verifier::external_body]
pub(crate) fn utc_now() -> (now: Timestamp)
    ensures
        now.valid(),
{
    let now = chrono::Utc::now();
    Timestamp { secs: now.timestamp(), nanos: now.timestamp_subsec_nanos() }
}

/// `chrono::DateTime::<chrono::Utc>::to_rfc3339`, on the moment that
/// `chrono::DateTime::from_timestamp` makes of the reading.
///
/// Claims that the text depends on the reading alone, and names it. For a valid
/// reading `from_timestamp` succeeds, and is the inverse of `timestamp` with
/// `timestamp_subsec_nanos`.
#[verifier::external_body]
pub(crate) fn to_rfc3339(moment: Timestamp) -> (text: String)
    requires
        moment.valid(),
    ensures
        text@ == rfc3339_text(moment.secs, moment.nanos),
{
    chrono::DateTime::from_timestamp(moment.secs, moment.nanos).unwrap().to_rfc3339()
}

} // verus!
