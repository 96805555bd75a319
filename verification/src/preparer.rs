//! The preparation-step sequencer.
//!
//! Preparation commands run strictly one after another inside the
//! workspace, and the run stops at the first step that fails to spawn or
//! exits non-zero. The `Preparer` decides which step to run next and
//! records each step's outcome; an empty step list completes immediately.

use vstd::prelude::*;

verus! {

/// The progress of one job's preparation: how many of `total` steps have
/// completed, and the index of the failed step once one failed.
pub struct Preparer {
    pub total: usize,
    pub completed: usize,
    pub failed: Option<usize>,
}

impl Preparer {
    /// Consistency: no more steps completed than exist, and a recorded
    /// failure names exactly the step after the completed ones.
    pub open spec fn wf(&self) -> bool {
        &&& self.completed <= self.total
        &&& (self.failed matches Some(i) ==> i == self.completed && self.completed < self.total)
    }

    /// The index of the next step to run: `None` once all steps completed
    /// or any step failed (fail-fast).
    pub open spec fn spec_next(&self) -> Option<usize> {
        if self.failed is Some {
            None
        } else if self.completed < self.total {
            Some(self.completed)
        } else {
            None
        }
    }

    /// Whether preparation ended successfully: every step completed and
    /// none failed.
    pub open spec fn spec_succeeded(&self) -> bool {
        self.failed is None && self.completed == self.total
    }

    /// A fresh sequencer for `total` preparation steps.
    pub fn new(total: usize) -> (r: Preparer)
        ensures
            r.total == total,
            r.completed == 0,
            r.failed is None,
            r.wf(),
    {
        Preparer { total, completed: 0, failed: None }
    }

    /// The index of the next step to run, `None` when the run is over.
    pub fn next_step(&self) -> (r: Option<usize>)
        ensures
            r == self.spec_next(),
    {
        match self.failed {
            Option::Some(_) => None,
            Option::None => if self.completed < self.total {
                Some(self.completed)
            } else {
                None
            },
        }
    }

    /// Record the outcome of the step `next_step` named: on success the
    /// run advances to the following step, on failure it stops for good
    /// with this step's index recorded.
    pub fn record(&mut self, ok: bool)
        requires
            old(self).wf(),
            old(self).failed is None,
            old(self).completed < old(self).total,
        ensures
            final(self).wf(),
            final(self).total == old(self).total,
            (ok ==> final(self).completed == old(self).completed + 1 && final(self).failed
                is None),
            (!ok ==> final(self).completed == old(self).completed && final(self).failed
                == Some(old(self).completed)),
    {
        if ok {
            self.completed = self.completed + 1;
        } else {
            self.failed = Some(self.completed);
        }
    }

    /// Whether the run is over, successfully or not.
    pub fn done(&self) -> (r: bool)
        ensures
            r == (self.spec_next() is None),
    {
        match self.next_step() {
            Option::Some(_) => false,
            Option::None => true,
        }
    }

    /// The failed step's index, `None` while no step has failed.
    pub fn failed_step(&self) -> (r: Option<usize>)
        ensures
            r == self.failed,
    {
        self.failed
    }
}

} // verus!
