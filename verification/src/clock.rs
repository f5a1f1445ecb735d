use vstd::prelude::*;

verus! {

/// An instant of UTC wall-clock time: whole seconds since the start of 1970,
/// and the nanoseconds into that second.
#[derive(Clone, Copy, Debug, PartialEq, Eq, Structural)]
pub struct Timestamp {
    pub seconds: i64,
    pub nanoseconds: u32,
}

impl Timestamp {
    /// `self` is not later than `other`.
    pub open spec fn not_after(self, other: Timestamp) -> bool {
        self.seconds < other.seconds || (self.seconds == other.seconds && self.nanoseconds
            <= other.nanoseconds)
    }

    /// Whether `self` is not later than `other`.
    pub fn is_not_after(&self, other: &Timestamp) -> (earlier: bool)
        ensures
            earlier == self.not_after(*other),
    {
        self.seconds < other.seconds || (self.seconds == other.seconds && self.nanoseconds
            <= other.nanoseconds)
    }
}

/// The system's wall clock, read through `chrono::Utc::now` and handed out as
/// `DateTime::timestamp` and `DateTime::timestamp_subsec_nanos` give it.
/// Nothing is promised of the reading: the clock may be set back between two
/// calls. The call panics, as it does for every user of chrono, on a machine
/// whose clock stands before 1970.
#[verifier::external_body]
pub(crate) fn utc_now() -> Timestamp {
    let now = chrono::Utc::now();
    Timestamp { seconds: now.timestamp(), nanoseconds: now.timestamp_subsec_nanos() }
}

} // verus!
