//! A discrete-time simulation of one run: the controller requests the stop
//! after its shutdown delay, the worker checks the flag at the top of each
//! work interval, and the background task runs its own iterations. At an
//! instant where the request and a loop-top check coincide, the check sees
//! the request.
use crate::background::BackgroundTask;
use crate::flag::CancellationFlag;
use crate::worker::{worker_step, WorkerAction, WorkerPhase};
use vstd::arithmetic::div_mod::lemma_mod_multiples_basic;
use vstd::prelude::*;

verus! {

/// The durations of one run, in whole time units.
#[derive(Clone, Copy, Debug, PartialEq, Eq, Structural)]
pub struct Timing {
    /// How long one unit of the worker's work takes.
    pub work_interval: u64,
    /// How long the controller lets the system run before requesting the stop.
    pub shutdown_delay: u64,
    /// How many iterations the background task runs.
    pub background_iterations: u64,
    /// The delay after each background iteration.
    pub background_interval: u64,
}

/// When each notification of a run happens.
#[derive(Debug)]
pub struct Timeline {
    /// The instants of the worker's "performing work" notifications.
    pub work_times: Vec<u64>,
    /// The instant the controller sets the flag.
    pub stop_requested_at: u64,
    /// The instant the worker's loop-top check sees the flag set and
    /// acknowledges the stop; the worker's join returns then.
    pub stop_observed_at: u64,
    /// The instants of the background task's iterations, in order.
    pub background_times: Vec<u64>,
    /// The instant both tasks have ended and the controller's final line
    /// appears.
    pub finished_at: u64,
}

/// Timings whose instants all fit in a `u64`, with a worker that spends time
/// on each unit of work.
pub open spec fn timing_ok(t: Timing) -> bool {
    &&& t.work_interval > 0
    &&& t.shutdown_delay + t.work_interval <= u64::MAX
    &&& t.background_iterations * t.background_interval <= u64::MAX
}

/// `s` is the first loop-top check, at a multiple of `w`, at or after `d`.
pub open spec fn first_check_from(w: int, d: int, s: int) -> bool {
    &&& s % w == 0
    &&& d <= s
    &&& s < d + w
}

/// `tl` is what happens in a run with the durations `t`.
pub open spec fn timeline_of(t: Timing, tl: Timeline) -> bool {
    let w = t.work_interval as int;
    let n = t.background_iterations as int;
    let b = t.background_interval as int;
    let stop = tl.stop_observed_at as int;
    &&& tl.stop_requested_at == t.shutdown_delay
    &&& first_check_from(w, t.shutdown_delay as int, stop)
    &&& tl.work_times@.len() * w == stop
    &&& forall|k: int| 0 <= k < tl.work_times@.len() ==> #[trigger] tl.work_times@[k] == k * w
    &&& tl.background_times@.len() == n
    &&& forall|i: int| 0 <= i < n ==> #[trigger] tl.background_times@[i] == i * b
    &&& tl.finished_at == if stop >= n * b {
        stop
    } else {
        n * b
    }
}

spec fn worker_progress(phase: WorkerPhase, now: int, d: int, w: int) -> int {
    match phase {
        WorkerPhase::Running => d + w - now + 2,
        WorkerPhase::Stopping => 1,
        WorkerPhase::Terminated => 0,
    }
}

/// Runs the worker loop against a flag that the controller sets at `d`:
/// returns the instants of the work notifications and the instant the stop
/// is acknowledged.
fn simulate_worker(w: u64, d: u64) -> (r: (Vec<u64>, u64))
    requires
        w > 0,
        d + w <= u64::MAX,
    ensures
        first_check_from(w as int, d as int, r.1 as int),
        r.0@.len() * w == r.1,
        forall|k: int| 0 <= k < r.0@.len() ==> #[trigger] r.0@[k] == k * w,
{
    let mut flag = CancellationFlag::new();
    let mut phase = WorkerPhase::Running;
    let mut now: u64 = 0;
    let mut work: Vec<u64> = Vec::new();
    proof {
        assert(work@.len() * w == 0) by (nonlinear_arith)
            requires
                work@.len() == 0,
        ;
    }
    loop
        invariant_except_break
            phase != WorkerPhase::Terminated,
            phase == WorkerPhase::Running ==> !flag@ && (work@.len() > 0 ==> now - w < d),
        invariant
            w > 0,
            d + w <= u64::MAX,
            now == work@.len() * w,
            now < d + w,
            phase == WorkerPhase::Stopping ==> d <= now,
            forall|k: int| 0 <= k < work@.len() ==> #[trigger] work@[k] == k * w,
        ensures
            d <= now,
            now < d + w,
            now == work@.len() * w,
            forall|k: int| 0 <= k < work@.len() ==> #[trigger] work@[k] == k * w,
        decreases worker_progress(phase, now as int, d as int, w as int),
    {
        if now >= d {
            flag.set_cancelled();
        }
        let cancelled = flag.is_cancelled();
        let (next, action) = worker_step(phase, cancelled);
        phase = next;
        match action {
            WorkerAction::PerformWork => {
                proof {
                    assert((work@.len() + 1) * w == work@.len() * w + w) by (nonlinear_arith);
                }
                work.push(now);
                now = now + w;
            },
            WorkerAction::AcknowledgeStop => {},
            WorkerAction::Exit => {
                break ;
            },
        }
    }
    proof {
        lemma_mod_multiples_basic(work@.len() as int, w as int);
    }
    (work, now)
}

/// Runs the background task: returns the instant each iteration starts.
fn simulate_background(n: u64, b: u64) -> (r: Vec<u64>)
    requires
        n * b <= u64::MAX,
    ensures
        r@.len() == n,
        forall|i: int| 0 <= i < n ==> #[trigger] r@[i] == i * b,
{
    let mut task = BackgroundTask::new(n);
    let mut now: u64 = 0;
    let mut times: Vec<u64> = Vec::new();
    proof {
        assert(task.completed() * b == 0) by (nonlinear_arith)
            requires
                task.completed() == 0,
        ;
    }
    loop
        invariant
            task.wf(),
            task.total() == n,
            n * b <= u64::MAX,
            times@.len() == task.completed(),
            now == task.completed() * b,
            forall|i: int| 0 <= i < times@.len() ==> #[trigger] times@[i] == i * b,
        ensures
            times@.len() == n,
            forall|i: int| 0 <= i < n ==> #[trigger] times@[i] == i * b,
        decreases task.total() - task.completed(),
    {
        match task.next_iteration() {
            Some(_) => {
                let ghost c = task.completed();
                proof {
                    assert(c * b == (c - 1) * b + b) by (nonlinear_arith);
                    assert(c * b <= n * b) by (nonlinear_arith)
                        requires
                            c <= n,
                    ;
                }
                times.push(now);
                now = now + b;
            },
            None => {
                break ;
            },
        }
    }
    times
}

/// Simulates one run with the durations `timing`.
pub fn simulate(timing: &Timing) -> (r: Timeline)
    requires
        timing_ok(*timing),
    ensures
        timeline_of(*timing, r),
{
    let (work_times, stop_observed_at) = simulate_worker(
        timing.work_interval,
        timing.shutdown_delay,
    );
    let background_times = simulate_background(
        timing.background_iterations,
        timing.background_interval,
    );
    let background_end = timing.background_iterations * timing.background_interval;
    let finished_at = if stop_observed_at >= background_end {
        stop_observed_at
    } else {
        background_end
    };
    Timeline {
        work_times,
        stop_requested_at: timing.shutdown_delay,
        stop_observed_at,
        background_times,
        finished_at,
    }
}

/// Bounded shutdown latency: every work notification comes before the stop is
/// acknowledged, and the acknowledgment follows the request within less than
/// one work interval.
pub proof fn law_bounded_latency(t: Timing, tl: Timeline)
    requires
        timing_ok(t),
        timeline_of(t, tl),
    ensures
        forall|k: int| 0 <= k < tl.work_times@.len() ==> #[trigger] tl.work_times@[k] < tl.stop_observed_at,
        tl.stop_requested_at <= tl.stop_observed_at,
        tl.stop_observed_at - tl.stop_requested_at < t.work_interval,
        tl.stop_observed_at <= tl.finished_at,
{
    let w = t.work_interval as int;
    let len = tl.work_times@.len() as int;
    assert forall|k: int| 0 <= k < len implies #[trigger] tl.work_times@[k] < tl.stop_observed_at by {
        assert(k * w < len * w) by (nonlinear_arith)
            requires
                0 <= k < len,
                w > 0,
        ;
    }
}

/// Isolation of the background task: runs that differ in anything but the
/// background task's own durations (the shutdown delay, the work interval)
/// give it the same iterations at the same instants.
pub proof fn law_background_isolated(t1: Timing, tl1: Timeline, t2: Timing, tl2: Timeline)
    requires
        timing_ok(t1),
        timing_ok(t2),
        timeline_of(t1, tl1),
        timeline_of(t2, tl2),
        t1.background_iterations == t2.background_iterations,
        t1.background_interval == t2.background_interval,
    ensures
        tl1.background_times@ == tl2.background_times@,
        tl1.background_times@.len() == t1.background_iterations,
{
    assert(tl1.background_times@ =~= tl2.background_times@);
}

} // verus!
