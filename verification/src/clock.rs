//! Instants on the UTC timeline, as plain integers.

use vstd::prelude::*;

verus! {

/// An instant: whole seconds since the Unix epoch, and the nanoseconds
/// that have passed since that second began.
#[derive(Clone, Copy, Debug, PartialEq, Eq, Structural)]
pub struct Timestamp {
    pub secs: i64,
    pub nanos: u32,
}

impl Timestamp {
    /// The instant as a count of nanoseconds since the Unix epoch.
    pub open spec fn total_nanos(self) -> int {
        self.secs * 1_000_000_000 + self.nanos
    }

    /// Nanoseconds that lie between `earlier` and `self`; negative where
    /// `self` comes first.
    pub fn nanos_since(&self, earlier: &Timestamp) -> (r: i128)
        ensures
            r == self.total_nanos() - earlier.total_nanos(),
    {
        let whole: i128 = (self.secs as i128 - earlier.secs as i128) * 1_000_000_000;
        whole + (self.nanos as i128 - earlier.nanos as i128)
    }
}

/// The current instant, read from the system clock by `chrono::Utc::now`
/// and taken apart by `DateTime::timestamp` and
/// `DateTime::timestamp_subsec_nanos`. Nothing is claimed of the result:
/// two calls may return any two instants. `Utc::now` does not return
/// where the system clock stands before the Unix epoch.
#[verifier::external_body]
pub(crate) fn now() -> Timestamp {
    let t = chrono::Utc::now();
    Timestamp { secs: t.timestamp(), nanos: t.timestamp_subsec_nanos() }
}

} // verus!
