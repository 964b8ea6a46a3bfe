//! An absolute deadline checked against a non-decreasing clock.

use vstd::prelude::*;

verus! {

/// An absolute point in time, in nanoseconds, after which no new attempt
/// may be issued.
#[derive(Clone, Copy, Debug, PartialEq, Eq, Structural)]
pub struct DeadlineClock {
    deadline: u64,
}

impl DeadlineClock {
    pub closed spec fn spec_deadline(self) -> u64 {
        self.deadline
    }

    /// The deadline `timeout` nanoseconds after `now`; a sum past the end of
    /// the clock's range saturates to its last instant.
    pub fn new(now: u64, timeout: u64) -> (r: DeadlineClock)
        ensures
            r.spec_deadline() as int == if now + timeout <= u64::MAX { now + timeout } else { u64::MAX as int },
    {
        DeadlineClock { deadline: now.saturating_add(timeout) }
    }

    /// The deadline at the given instant.
    pub fn at(deadline: u64) -> (r: DeadlineClock)
        ensures
            r.spec_deadline() == deadline,
    {
        DeadlineClock { deadline }
    }

    pub fn deadline(&self) -> (r: u64)
        ensures
            r == self.spec_deadline(),
    {
        self.deadline
    }

    /// Whether the deadline has passed at `now`.
    pub fn expired(&self, now: u64) -> (r: bool)
        ensures
            r == (now > self.spec_deadline()),
    {
        now > self.deadline
    }
}

} // verus!
