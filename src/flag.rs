//! The cancellation flag: a sequential state model with exact contracts, and
//! the atomic handle that concurrent tasks share.
use std::sync::atomic::{AtomicBool, Ordering};
use std::sync::Arc;
use vstd::prelude::*;

verus! {

/// One operation on a cancellation flag.
#[derive(Clone, Copy, Debug, PartialEq, Eq, Structural)]
pub enum FlagOp {
    /// Request cancellation.
    Cancel,
    /// Observe whether cancellation has been requested.
    Observe,
}

/// The state a flag holds after `op`, starting from `cancelled`.
pub open spec fn flag_after(cancelled: bool, op: FlagOp) -> bool {
    match op {
        FlagOp::Cancel => true,
        FlagOp::Observe => cancelled,
    }
}

/// The state a flag holds after every operation of `ops`, in order.
pub open spec fn flag_after_all(cancelled: bool, ops: Seq<FlagOp>) -> bool
    decreases ops.len(),
{
    if ops.len() == 0 {
        cancelled
    } else {
        flag_after(flag_after_all(cancelled, ops.drop_last()), ops.last())
    }
}

/// What the observation at position `i` of `ops` returns, on a flag that
/// started as `cancelled`: the state left by the operations before it.
pub open spec fn observed_at(cancelled: bool, ops: Seq<FlagOp>, i: int) -> bool {
    flag_after_all(cancelled, ops.take(i))
}

/// A cancellation flag owned by one task: `false` while running, `true` once
/// cancellation has been requested.
#[derive(Clone, Copy, Debug, PartialEq, Eq, Structural)]
pub struct CancellationFlag {
    cancelled: bool,
}

impl View for CancellationFlag {
    type V = bool;

    closed spec fn view(&self) -> bool {
        self.cancelled
    }
}

impl CancellationFlag {
    /// A flag in the running state.
    pub fn new() -> (r: CancellationFlag)
        ensures
            r@ == false,
    {
        CancellationFlag { cancelled: false }
    }

    /// Requests cancellation; requesting it again changes nothing.
    pub fn set_cancelled(&mut self)
        ensures
            final(self)@ == flag_after(old(self)@, FlagOp::Cancel),
            final(self)@ == true,
    {
        self.cancelled = true;
    }

    /// Whether cancellation has been requested.
    pub fn is_cancelled(&self) -> (r: bool)
        ensures
            r == self@,
            r == flag_after(self@, FlagOp::Observe),
    {
        self.cancelled
    }
}

/// A handle on a flag shared by reference among concurrent tasks.
///
/// Every handle made by `share` names the same atomic cell. The cell starts
/// at `false` and the only write this type ever makes stores `true`, so the
/// cell moves at most once, from running to cancelled. Every access uses
/// sequentially consistent ordering. vstd gives std's atomics no model of the
/// value they hold, so what a load returns is stated by `CancellationFlag`,
/// whose transitions these methods follow.
pub struct SharedFlag {
    cell: Arc<AtomicBool>,
}

impl SharedFlag {
    /// A new flag in the running state.
    pub fn new() -> (r: SharedFlag) {
        SharedFlag { cell: Arc::new(AtomicBool::new(false)) }
    }

    /// Another handle on the same flag.
    pub fn share(&self) -> (r: SharedFlag) {
        SharedFlag { cell: Arc::clone(&self.cell) }
    }

    /// Requests cancellation. Safe to call any number of times.
    pub fn set_cancelled(&self) {
        self.cell.store(true, Ordering::SeqCst);
    }

    /// Whether cancellation has been requested; never blocks.
    pub fn is_cancelled(&self) -> (r: bool) {
        self.cell.load(Ordering::SeqCst)
    }
}

/// Once a flag is cancelled, no sequence of operations brings it back to
/// running.
pub proof fn lemma_cancelled_stays(cancelled: bool, ops: Seq<FlagOp>)
    requires
        cancelled,
    ensures
        flag_after_all(cancelled, ops),
    decreases ops.len(),
{
    if ops.len() > 0 {
        lemma_cancelled_stays(cancelled, ops.drop_last());
    }
}

/// The state after a prefix of operations is implied by the state after a
/// shorter prefix: the flag only moves from running to cancelled.
proof fn lemma_prefix_monotone(cancelled: bool, ops: Seq<FlagOp>, i: int, j: int)
    requires
        0 <= i <= j <= ops.len(),
        flag_after_all(cancelled, ops.take(i)),
    ensures
        flag_after_all(cancelled, ops.take(j)),
    decreases j - i,
{
    if j > i {
        lemma_prefix_monotone(cancelled, ops, i, j - 1);
        assert(ops.take(j).drop_last() =~= ops.take(j - 1));
    }
}

/// Monotonicity: once an observation returns `true`, every later observation
/// in the same sequence of operations returns `true` as well.
pub proof fn law_observation_monotone(cancelled: bool, ops: Seq<FlagOp>, i: int, j: int)
    requires
        0 <= i < j < ops.len(),
        ops[i] == FlagOp::Observe,
        ops[j] == FlagOp::Observe,
        observed_at(cancelled, ops, i),
    ensures
        observed_at(cancelled, ops, j),
{
    lemma_prefix_monotone(cancelled, ops, i, j);
}

/// Idempotence: a second cancellation request placed right after a first
/// leaves the flag's state, after any further operations, as one request
/// would.
pub proof fn law_cancel_idempotent(cancelled: bool, rest: Seq<FlagOp>)
    ensures
        flag_after(flag_after(cancelled, FlagOp::Cancel), FlagOp::Cancel) == flag_after(
            cancelled,
            FlagOp::Cancel,
        ),
        flag_after_all(cancelled, seq![FlagOp::Cancel, FlagOp::Cancel] + rest)
            == flag_after_all(cancelled, seq![FlagOp::Cancel] + rest),
{
    lemma_cancelled_stays(true, rest);
    lemma_after_all_from(cancelled, seq![FlagOp::Cancel, FlagOp::Cancel], rest);
    lemma_after_all_from(cancelled, seq![FlagOp::Cancel], rest);
    assert(seq![FlagOp::Cancel, FlagOp::Cancel].drop_last() =~= seq![FlagOp::Cancel]);
    assert(seq![FlagOp::Cancel].drop_last() =~= Seq::<FlagOp>::empty());
}

/// Running `a + b` is running `a`, then `b` from the state `a` left.
proof fn lemma_after_all_from(cancelled: bool, a: Seq<FlagOp>, b: Seq<FlagOp>)
    ensures
        flag_after_all(cancelled, a + b) == flag_after_all(flag_after_all(cancelled, a), b),
    decreases b.len(),
{
    if b.len() == 0 {
        assert(a + b =~= a);
    } else {
        lemma_after_all_from(cancelled, a, b.drop_last());
        assert((a + b).drop_last() =~= a + b.drop_last());
    }
}

} // verus!
