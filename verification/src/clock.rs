use vstd::prelude::*;

verus! {

/// A point in time, UTC: whole seconds since the Unix epoch and the
/// nanoseconds into that second.
#[derive(Clone, Copy, Debug, PartialEq, Eq, Structural)]
pub struct Timestamp {
    pub secs: i64,
    pub nanos: u32,
}

impl Timestamp {
    /// `self` is strictly earlier than `other`.
    pub open spec fn before(self, other: Timestamp) -> bool {
        self.secs < other.secs || (self.secs == other.secs && self.nanos < other.nanos)
    }

    /// `self` is no later than `other`.
    pub open spec fn not_after(self, other: Timestamp) -> bool {
        !other.before(self)
    }

    /// Whether `self` is strictly earlier than `other`.
    pub fn is_before(&self, other: &Timestamp) -> (b: bool)
        ensures
            b == self.before(*other),
    {
        self.secs < other.secs || (self.secs == other.secs && self.nanos < other.nanos)
    }

    /// Reads the system clock through `chrono::Utc::now`, and takes the
    /// reading apart with `DateTime::timestamp` and
    /// `DateTime::timestamp_subsec_nanos`. Nothing is claimed of the value:
    /// two readings may come in any order.
    #[verifier::external_body]
    pub(crate) fn now() -> (t: Timestamp) {
        let reading = chrono::Utc::now();
        Timestamp { secs: reading.timestamp(), nanos: reading.timestamp_subsec_nanos() }
    }
}

} // verus!
