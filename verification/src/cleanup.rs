//! The bounded teardown retry policy.
//!
//! Removing a workspace can fail transiently while a just-exited child
//! process or an indexing service still holds the directory, so removal is
//! retried with a fixed delay. The retries are capped: once `cap` attempts
//! have failed, teardown ends in a cleanup failure instead of looping
//! forever, and the leftover directory is reported.

use vstd::prelude::*;

verus! {

/// The state of one teardown's retry loop: the attempt cap and fixed delay
/// it was configured with, how many attempts were made, and whether one
/// succeeded.
pub struct CleanupRetry {
    pub cap: u64,
    pub delay_ms: u64,
    pub attempts: u64,
    pub succeeded: bool,
}

impl CleanupRetry {
    /// Consistency: never more attempts than the cap allows, and a success
    /// took at least one attempt.
    pub open spec fn wf(&self) -> bool {
        &&& 1 <= self.cap
        &&& self.attempts <= self.cap
        &&& (self.succeeded ==> 1 <= self.attempts)
    }

    /// Whether the retry loop is over: removal succeeded, or the cap is
    /// exhausted.
    pub open spec fn spec_done(&self) -> bool {
        self.succeeded || self.attempts == self.cap
    }

    /// Whether the loop ended with the directory still in place.
    pub open spec fn spec_exhausted(&self) -> bool {
        !self.succeeded && self.attempts == self.cap
    }

    /// A fresh retry policy allowing up to `cap` removal attempts,
    /// `delay_ms` milliseconds apart.
    pub fn new(cap: u64, delay_ms: u64) -> (r: CleanupRetry)
        requires
            1 <= cap,
        ensures
            r.cap == cap,
            r.delay_ms == delay_ms,
            r.attempts == 0,
            !r.succeeded,
            r.wf(),
    {
        CleanupRetry { cap, delay_ms, attempts: 0, succeeded: false }
    }

    /// Whether another removal attempt should be made now.
    pub fn should_attempt(&self) -> (r: bool)
        ensures
            r == (!self.succeeded && self.attempts < self.cap),
    {
        !self.succeeded && self.attempts < self.cap
    }

    /// Record one removal attempt's outcome.
    pub fn record(&mut self, ok: bool)
        requires
            old(self).wf(),
            !old(self).succeeded,
            old(self).attempts < old(self).cap,
        ensures
            final(self).wf(),
            final(self).cap == old(self).cap,
            final(self).delay_ms == old(self).delay_ms,
            final(self).attempts == old(self).attempts + 1,
            final(self).succeeded == ok,
    {
        self.attempts = self.attempts + 1;
        self.succeeded = ok;
    }

    /// Whether the retry loop is over.
    pub fn done(&self) -> (r: bool)
        ensures
            r == self.spec_done(),
    {
        self.succeeded || self.attempts == self.cap
    }

    /// Whether the loop gave up with the directory still in place.
    pub fn exhausted(&self) -> (r: bool)
        ensures
            r == self.spec_exhausted(),
    {
        !self.succeeded && self.attempts == self.cap
    }
}

} // verus!
