//! Spans of time, in whole milliseconds.

use vstd::prelude::*;

verus! {

#[derive(Clone, Copy, Debug, PartialEq, Eq, PartialOrd, Ord, Structural)]
pub struct Duration {
    pub millis: u64,
}

impl Duration {
    pub fn from_millis(millis: u64) -> (duration: Duration)
        ensures
            duration.millis == millis,
    {
        Duration { millis }
    }

    pub fn from_secs(secs: u64) -> (duration: Duration)
        requires
            secs * 1_000 <= u64::MAX,
        ensures
            duration.millis == secs * 1_000,
    {
        Duration { millis: secs * 1_000 }
    }

    pub fn as_millis(&self) -> (millis: u64)
        ensures
            millis == self.millis,
    {
        self.millis
    }

    /// The shorter of two spans.
    pub open spec fn shorter(self, other: Duration) -> Duration {
        if other.millis < self.millis {
            other
        } else {
            self
        }
    }

    pub fn shorter_of(self, other: Duration) -> (duration: Duration)
        ensures
            duration == self.shorter(other),
    {
        if other.millis < self.millis {
            other
        } else {
            self
        }
    }
}

} // verus!
