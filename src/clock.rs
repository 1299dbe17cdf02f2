use vstd::prelude::*;

verus! {

/// A point in time: whole seconds since the Unix epoch (UTC) and the
/// nanoseconds past that second. Ordered by seconds, then nanoseconds.
#[derive(Debug, Clone, Copy, PartialEq, Eq, Structural, PartialOrd, Ord, Hash)]
pub struct Timestamp {
    pub seconds: i64,
    pub nanos: u32,
}

impl Timestamp {
    /// `self` comes strictly before `other`: in the order of the derived `Ord`,
    /// by seconds, then nanoseconds.
    pub open spec fn is_before(&self, other: Timestamp) -> bool {
        self.seconds < other.seconds || (self.seconds == other.seconds && self.nanos
            < other.nanos)
    }
}

/// Relies on chrono::Utc::now for the current time, read back through
/// `DateTime::timestamp` and `DateTime::timestamp_subsec_nanos`. The reading is
/// taken as a duration since the Unix epoch, so it is never before it and
/// holds no leap second; nothing else is promised of it, as the system clock
/// may be set back. It panics when the system clock reads before the epoch.
#[verifier::external_body]
pub(crate) fn now() -> (t: Timestamp)
    ensures
        t.seconds >= 0,
        t.nanos < 1_000_000_000,
{
    let now = chrono::Utc::now();
    Timestamp { seconds: now.timestamp(), nanos: now.timestamp_subsec_nanos() }
}

} // verus!
