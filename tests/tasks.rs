use coop_cancel::background::BackgroundTask;
use coop_cancel::worker::{worker_step, WorkerAction, WorkerPhase};

#[test]
fn running_worker_works_while_not_cancelled() {
    assert_eq!(
        worker_step(WorkerPhase::Running, false),
        (WorkerPhase::Running, WorkerAction::PerformWork)
    );
}

#[test]
fn running_worker_acknowledges_cancel() {
    assert_eq!(
        worker_step(WorkerPhase::Running, true),
        (WorkerPhase::Stopping, WorkerAction::AcknowledgeStop)
    );
}

#[test]
fn stopping_worker_exits_whatever_it_reads() {
    assert_eq!(
        worker_step(WorkerPhase::Stopping, false),
        (WorkerPhase::Terminated, WorkerAction::Exit)
    );
    assert_eq!(
        worker_step(WorkerPhase::Stopping, true),
        (WorkerPhase::Terminated, WorkerAction::Exit)
    );
    assert_eq!(
        worker_step(WorkerPhase::Terminated, false),
        (WorkerPhase::Terminated, WorkerAction::Exit)
    );
}

#[test]
fn worker_run_acknowledges_once_then_exits() {
    let reads = [false, false, false, true, true, false];
    let mut phase = WorkerPhase::Running;
    let mut actions = Vec::new();
    for r in reads {
        let (next, action) = worker_step(phase, r);
        phase = next;
        actions.push(action);
    }
    assert_eq!(
        actions,
        vec![
            WorkerAction::PerformWork,
            WorkerAction::PerformWork,
            WorkerAction::PerformWork,
            WorkerAction::AcknowledgeStop,
            WorkerAction::Exit,
            WorkerAction::Exit,
        ]
    );
    assert_eq!(phase, WorkerPhase::Terminated);
}

#[test]
fn background_task_runs_exactly_ten_iterations() {
    let mut task = BackgroundTask::new(10);
    let mut numbers = Vec::new();
    while let Some(i) = task.next_iteration() {
        numbers.push(i);
    }
    assert_eq!(numbers, (1..=10).collect::<Vec<u64>>());
    assert_eq!(task.next_iteration(), None);
}

#[test]
fn background_task_with_no_iterations() {
    let mut task = BackgroundTask::new(0);
    assert_eq!(task.next_iteration(), None);
}
