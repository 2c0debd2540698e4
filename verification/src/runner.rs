//! The step-by-step driver of an ordered plan.
//!
//! The library plans work as ordered steps but never performs a step
//! itself: the caller runs each step (spawning a process, running a remote
//! command) and reports back whether it succeeded. `StepRunner` holds the
//! position in the plan and enforces the stop-on-first-failure rule: a
//! failing fatal step halts the plan, a failing non-fatal step is ignored,
//! and after a halt no further step is ever offered.

use vstd::prelude::*;

verus! {

/// The cursor of one plan execution: which step runs next, and whether a
/// fatal step has failed.
pub struct StepRunner {
    /// Fatality of each step of the plan, in order.
    fatal: Vec<bool>,
    /// Index of the next step to run.
    cursor: usize,
    /// Index of the fatally failed step, if one has failed.
    failed_at: Option<usize>,
}

impl StepRunner {
    /// Fatality of each step of the plan, in order.
    pub closed spec fn spec_fatal(&self) -> Seq<bool> {
        self.fatal@
    }

    /// How many steps have been started (every step before the cursor ran;
    /// no step from the cursor on has).
    pub closed spec fn spec_started(&self) -> int {
        self.cursor as int
    }

    /// The index of the fatally failed step, if one has failed.
    pub closed spec fn spec_failed_at(&self) -> Option<int> {
        match self.failed_at {
            Some(i) => Some(i as int),
            None => None,
        }
    }

    /// The machine is well formed: the cursor stays within the plan, and a
    /// recorded failure points at the fatal step where the run halted.
    pub open spec fn inv(&self) -> bool {
        &&& 0 <= self.spec_started() <= self.spec_fatal().len()
        &&& match self.spec_failed_at() {
            Some(i) => {
                &&& i + 1 == self.spec_started()
                &&& self.spec_fatal()[i]
            },
            None => true,
        }
    }

    /// The step offered next: the one under the cursor, unless the plan
    /// has halted (failed fatally or run out of steps).
    pub open spec fn spec_current(&self) -> Option<int> {
        if self.spec_failed_at() is None && self.spec_started() < self.spec_fatal().len() {
            Some(self.spec_started())
        } else {
            None
        }
    }

    /// The whole plan ran and no fatal step failed.
    pub open spec fn spec_succeeded(&self) -> bool {
        self.spec_failed_at() is None && self.spec_started() == self.spec_fatal().len()
    }

    /// A fresh runner for a plan whose steps have the given fatality.
    pub fn new(fatal: Vec<bool>) -> (r: StepRunner)
        ensures
            r.inv(),
            r.spec_fatal() == fatal@,
            r.spec_started() == 0,
            r.spec_failed_at() is None,
    {
        StepRunner { fatal, cursor: 0, failed_at: None }
    }

    /// The index of the step the caller must run next, or `None` when the
    /// plan has halted.
    pub fn current(&self) -> (r: Option<usize>)
        requires
            self.inv(),
        ensures
            match r {
                Some(i) => self.spec_current() == Some(i as int),
                None => self.spec_current() is None,
            },
    {
        match self.failed_at {
            Some(_) => None,
            None => {
                if self.cursor < self.fatal.len() {
                    Some(self.cursor)
                } else {
                    None
                }
            },
        }
    }

    /// The state after recording the outcome of the current step.
    pub closed spec fn spec_after(self, ok: bool) -> StepRunner
        recommends
            self.spec_current() is Some,
    {
        if !ok && self.spec_fatal()[self.spec_started()] {
            StepRunner {
                cursor: (self.cursor + 1) as usize,
                failed_at: Some(self.cursor),
                ..self
            }
        } else {
            StepRunner { cursor: (self.cursor + 1) as usize, ..self }
        }
    }

    /// Records the outcome of the current step: success or a non-fatal
    /// failure moves the cursor on; a fatal failure halts the plan at this
    /// step.
    pub fn record(&mut self, ok: bool)
        requires
            old(self).inv(),
            old(self).spec_current() is Some,
        ensures
            *final(self) == old(self).spec_after(ok),
            final(self).inv(),
            final(self).spec_fatal() == old(self).spec_fatal(),
            ok || !old(self).spec_fatal()[old(self).spec_started()] ==> {
                &&& final(self).spec_started() == old(self).spec_started() + 1
                &&& final(self).spec_failed_at() is None
            },
            !ok && old(self).spec_fatal()[old(self).spec_started()] ==> {
                &&& final(self).spec_failed_at() == Some(old(self).spec_started())
                &&& final(self).spec_current() is None
            },
    {
        let len = self.fatal.len();
        let was_fatal = self.fatal[self.cursor];
        if !ok && was_fatal {
            self.failed_at = Some(self.cursor);
        }
        assert(self.cursor < len);
        self.cursor = self.cursor + 1;
    }

    /// The whole plan ran and no fatal step failed.
    pub fn succeeded(&self) -> (r: bool)
        requires
            self.inv(),
        ensures
            r == self.spec_succeeded(),
    {
        match self.failed_at {
            Some(_) => false,
            None => self.cursor == self.fatal.len(),
        }
    }

    /// The index of the fatally failed step, if one has failed.
    pub fn failed_step(&self) -> (r: Option<usize>)
        ensures
            match r {
                Some(i) => self.spec_failed_at() == Some(i as int),
                None => self.spec_failed_at() is None,
            },
    {
        self.failed_at
    }
}

/// The state after feeding a whole sequence of outcomes, stopping as soon
/// as the plan halts.
pub open spec fn spec_run(r: StepRunner, oks: Seq<bool>) -> StepRunner
    decreases oks.len(),
{
    if oks.len() == 0 {
        r
    } else if r.spec_current() is Some {
        spec_run(r.spec_after(oks[0]), oks.drop_first())
    } else {
        r
    }
}

/// Law (sequential short-circuit): once a fatal step has failed, the plan
/// is inert — whatever outcomes are fed afterwards, no step is offered and
/// the state never changes, so no step after the failed one ever runs.
pub proof fn lemma_no_step_after_failure(r: StepRunner, oks: Seq<bool>)
    requires
        r.inv(),
        r.spec_failed_at() is Some,
    ensures
        spec_run(r, oks) == r,
        r.spec_current() is None,
{
}

} // verus!
