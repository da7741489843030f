//! The microtask deferral: a primitive that forces at least one hand-off to
//! the host scheduler between "operation requested" and "operation executes".
//!
//! Constructing one never blocks and never fails. It reports "not yet" until
//! the scheduler has run one tick of its queue, then "ready" forever after;
//! it has no failure channel at all, so polling it can never surface an
//! error.

use vstd::prelude::*;

verus! {

/// What polling a deferral reports: either the scheduler tick it waits for
/// has not happened yet, or it has.
#[derive(Clone, Copy, PartialEq, Eq, Structural, Debug)]
pub enum TickState {
    Pending,
    Ready,
}

/// A deferral that becomes ready after one tick of the host's microtask
/// queue. The scheduler marks the tick by calling [`NextTick::elapse`];
/// until then every poll reports [`TickState::Pending`].
pub struct NextTick {
    done: bool,
}

impl NextTick {
    /// Whether the scheduler tick this deferral waits for has happened.
    pub closed spec fn elapsed(self) -> bool {
        self.done
    }

    /// Construct a deferral. It is never ready at construction: the caller
    /// that created it cannot observe it settled without first handing
    /// control back to the scheduler.
    pub fn new() -> (t: NextTick)
        ensures
            !t.elapsed(),
    {
        NextTick { done: false }
    }

    /// The scheduler's side: record that one tick of the microtask queue has
    /// run. Once elapsed, a deferral stays elapsed; there is no transition
    /// back.
    pub fn elapse(&mut self)
        ensures
            final(self).elapsed(),
    {
        self.done = true;
    }

    /// Poll the deferral. Reports ready exactly when the tick has elapsed,
    /// and has no way to report a failure.
    pub fn poll(&self) -> (r: TickState)
        ensures
            r == TickState::Ready <==> self.elapsed(),
    {
        if self.done {
            TickState::Ready
        } else {
            TickState::Pending
        }
    }
}

} // verus!
