//! The independent background task: a fixed number of iterations, each
//! followed by its own delay. It never reads the cancellation flag.
use vstd::prelude::*;

verus! {

/// Counts the iterations of a background task that runs `total` of them and
/// then ends by itself.
#[derive(Clone, Copy, Debug, PartialEq, Eq, Structural)]
pub struct BackgroundTask {
    completed: u64,
    total: u64,
}

impl BackgroundTask {
    /// Iterations already handed out.
    pub closed spec fn completed(&self) -> nat {
        self.completed as nat
    }

    /// Iterations the task runs in all.
    pub closed spec fn total(&self) -> nat {
        self.total as nat
    }

    /// No more iterations handed out than the task runs.
    pub open spec fn wf(&self) -> bool {
        self.completed() <= self.total()
    }

    /// A task that has run none of its `total` iterations yet.
    pub fn new(total: u64) -> (r: BackgroundTask)
        ensures
            r.wf(),
            r.completed() == 0,
            r.total() == total,
    {
        BackgroundTask { completed: 0, total }
    }

    /// The number, counted from 1, of the next iteration to run, or `None`
    /// once all iterations have run.
    pub fn next_iteration(&mut self) -> (r: Option<u64>)
        requires
            old(self).wf(),
        ensures
            final(self).wf(),
            final(self).total() == old(self).total(),
            old(self).completed() < old(self).total() ==> r == Some((old(self).completed() + 1) as u64)
                && final(self).completed() == old(self).completed() + 1,
            old(self).completed() == old(self).total() ==> r is None && final(self).completed()
                == old(self).completed(),
    {
        if self.completed < self.total {
            self.completed = self.completed + 1;
            Some(self.completed)
        } else {
            None
        }
    }
}

} // verus!
