//! The worker loop's decisions: at each loop-top check it reads the flag and
//! either does one more unit of work or winds down.
use vstd::prelude::*;

verus! {

/// Where the worker loop stands.
#[derive(Clone, Copy, Debug, PartialEq, Eq, Structural)]
pub enum WorkerPhase {
    /// Still working; the next loop-top check reads the flag.
    Running,
    /// Cancellation was observed; the stop notification has been emitted.
    Stopping,
    /// The task function has returned.
    Terminated,
}

/// What the worker does after one step.
#[derive(Clone, Copy, Debug, PartialEq, Eq, Structural)]
pub enum WorkerAction {
    /// Emit the "performing work" notification, then suspend for one
    /// work interval.
    PerformWork,
    /// Emit the notification that the stop signal was observed.
    AcknowledgeStop,
    /// Return from the task function.
    Exit,
}

/// One step of the worker loop, given what the flag read at this step.
/// Only a running worker reads the flag; the other phases ignore it.
pub open spec fn worker_next(phase: WorkerPhase, cancelled: bool) -> (WorkerPhase, WorkerAction) {
    match phase {
        WorkerPhase::Running => if cancelled {
            (WorkerPhase::Stopping, WorkerAction::AcknowledgeStop)
        } else {
            (WorkerPhase::Running, WorkerAction::PerformWork)
        },
        WorkerPhase::Stopping => (WorkerPhase::Terminated, WorkerAction::Exit),
        WorkerPhase::Terminated => (WorkerPhase::Terminated, WorkerAction::Exit),
    }
}

/// The phase reached from `phase` after one step per flag reading of `reads`.
pub open spec fn phase_after(phase: WorkerPhase, reads: Seq<bool>) -> WorkerPhase
    decreases reads.len(),
{
    if reads.len() == 0 {
        phase
    } else {
        worker_next(phase_after(phase, reads.drop_last()), reads.last()).0
    }
}

/// The action taken at step `i` when the worker starts in `phase` and its
/// flag readings are `reads`.
pub open spec fn action_at(phase: WorkerPhase, reads: Seq<bool>, i: int) -> WorkerAction {
    worker_next(phase_after(phase, reads.take(i)), reads[i]).1
}

/// Decides the worker's next phase and action from its phase and the value
/// the flag held at the loop-top check.
pub fn worker_step(phase: WorkerPhase, cancelled: bool) -> (r: (WorkerPhase, WorkerAction))
    ensures
        r == worker_next(phase, cancelled),
{
    match phase {
        WorkerPhase::Running => {
            if cancelled {
                (WorkerPhase::Stopping, WorkerAction::AcknowledgeStop)
            } else {
                (WorkerPhase::Running, WorkerAction::PerformWork)
            }
        },
        WorkerPhase::Stopping => (WorkerPhase::Terminated, WorkerAction::Exit),
        WorkerPhase::Terminated => (WorkerPhase::Terminated, WorkerAction::Exit),
    }
}

proof fn lemma_take_drop_last(reads: Seq<bool>, j: int)
    requires
        0 < j <= reads.len(),
    ensures
        reads.take(j).drop_last() =~= reads.take(j - 1),
        reads.take(j).last() == reads[j - 1],
{
}

/// A worker that has left `Running` never returns to it, and from `Stopping`
/// one step later it has terminated.
proof fn lemma_phase_after_stop(phase: WorkerPhase, reads: Seq<bool>, i: int, j: int)
    requires
        0 <= i < j <= reads.len(),
        phase_after(phase, reads.take(i)) != WorkerPhase::Running,
    ensures
        phase_after(phase, reads.take(j)) == WorkerPhase::Terminated,
    decreases j - i,
{
    lemma_take_drop_last(reads, j);
    if j > i + 1 {
        lemma_phase_after_stop(phase, reads, i, j - 1);
    }
}

/// Ordering of notifications: after the stop is acknowledged the worker does
/// no further work and acknowledges nothing again; every step after it is an
/// exit.
pub proof fn law_nothing_after_acknowledge(reads: Seq<bool>, i: int, j: int)
    requires
        0 <= i < j < reads.len(),
        action_at(WorkerPhase::Running, reads, i) == WorkerAction::AcknowledgeStop,
    ensures
        action_at(WorkerPhase::Running, reads, j) == WorkerAction::Exit,
{
    lemma_take_drop_last(reads, i + 1);
    assert(phase_after(WorkerPhase::Running, reads.take(i + 1)) == WorkerPhase::Stopping);
    if j > i + 1 {
        lemma_phase_after_stop(WorkerPhase::Running, reads, i + 1, j);
    }
}

/// Work continues exactly while no reading so far has seen cancellation.
pub proof fn law_work_until_cancel_seen(reads: Seq<bool>, i: int)
    requires
        0 <= i < reads.len(),
    ensures
        action_at(WorkerPhase::Running, reads, i) == WorkerAction::PerformWork <==> forall|k: int|
            0 <= k <= i ==> !reads[k],
{
    lemma_running_until(reads, i);
}

/// The worker is still running before step `i` exactly when every earlier
/// reading was `false`.
proof fn lemma_running_until(reads: Seq<bool>, i: int)
    requires
        0 <= i <= reads.len(),
    ensures
        phase_after(WorkerPhase::Running, reads.take(i)) == WorkerPhase::Running <==> forall|k: int|
            0 <= k < i ==> !reads[k],
    decreases i,
{
    if i > 0 {
        lemma_running_until(reads, i - 1);
        lemma_take_drop_last(reads, i);
    }
}

/// The join completes: once a reading has seen cancellation, two steps later
/// at the latest the worker has terminated, whatever it reads afterwards.
pub proof fn law_terminates_after_cancel_seen(reads: Seq<bool>, i: int)
    requires
        0 <= i,
        i + 2 <= reads.len(),
        reads[i],
    ensures
        phase_after(WorkerPhase::Running, reads) == WorkerPhase::Terminated,
{
    lemma_take_drop_last(reads, i + 1);
    assert(phase_after(WorkerPhase::Running, reads.take(i + 1)) != WorkerPhase::Running);
    lemma_phase_after_stop(WorkerPhase::Running, reads, i + 1, reads.len() as int);
    assert(reads.take(reads.len() as int) =~= reads);
}

} // verus!
