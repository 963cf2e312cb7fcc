//! Instants in UTC as plain values.

use vstd::prelude::*;

verus! {

/// An instant in UTC: whole seconds since the Unix epoch and the
/// nanoseconds within that second (what a `chrono::DateTime<Utc>` holds).
#[derive(Clone, Copy, Debug, PartialEq, Eq, Structural)]
pub struct DateTimeUtc {
    pub secs: i64,
    pub nanos: u32,
}

/// `a` is strictly earlier than `b`.
pub open spec fn earlier(a: DateTimeUtc, b: DateTimeUtc) -> bool {
    a.secs < b.secs || (a.secs == b.secs && a.nanos < b.nanos)
}

impl DateTimeUtc {
    /// `true` when `self` is strictly earlier than `other`.
    pub fn is_before(&self, other: &DateTimeUtc) -> (r: bool)
        ensures
            r == earlier(*self, *other),
    {
        self.secs < other.secs || (self.secs == other.secs && self.nanos < other.nanos)
    }
}

/// A reading of the clock can be this instant: it is not before the Unix
/// epoch.
pub open spec fn possible_now(t: DateTimeUtc) -> bool {
    t.secs >= 0
}

/// The current time (`chrono::Utc::now()`), converted to seconds and
/// nanoseconds since the epoch.  Claimed: the reading is not before the
/// Unix epoch (`Utc::now` panics on a system time before it, so it never
/// returns one); nothing more is promised of the value, which is the
/// clock's.
#[verifier::external_body]
pub fn utc_now() -> (t: DateTimeUtc)
    ensures
        possible_now(t),
{
    let now = chrono::Utc::now();
    DateTimeUtc { secs: now.timestamp(), nanos: now.timestamp_subsec_nanos() }
}

} // verus!
