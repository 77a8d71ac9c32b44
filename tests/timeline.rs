use coop_cancel::timeline::{simulate, Timing};

fn timing(work_interval: u64, shutdown_delay: u64) -> Timing {
    Timing {
        work_interval,
        shutdown_delay,
        background_iterations: 10,
        background_interval: 1,
    }
}

#[test]
fn scenario_interval_two_delay_five() {
    let tl = simulate(&timing(2, 5));
    assert_eq!(tl.work_times, vec![0, 2, 4]);
    assert_eq!(tl.stop_requested_at, 5);
    assert_eq!(tl.stop_observed_at, 6);
    assert!(tl.finished_at >= tl.stop_observed_at);
    assert_eq!(tl.finished_at, 10);
}

#[test]
fn request_at_a_check_instant_is_seen_there() {
    let tl = simulate(&timing(2, 4));
    assert_eq!(tl.work_times, vec![0, 2]);
    assert_eq!(tl.stop_observed_at, 4);
}

#[test]
fn immediate_request_means_no_work() {
    let tl = simulate(&timing(3, 0));
    assert!(tl.work_times.is_empty());
    assert_eq!(tl.stop_observed_at, 0);
}

#[test]
fn latency_is_under_one_interval() {
    for delay in 0..20u64 {
        let tl = simulate(&timing(3, delay));
        assert!(tl.stop_observed_at >= delay);
        assert!(tl.stop_observed_at - delay < 3);
        assert_eq!(tl.stop_observed_at % 3, 0);
        assert!(tl.work_times.iter().all(|&t| t < tl.stop_observed_at));
    }
}

#[test]
fn background_unaffected_by_cancellation() {
    let early = simulate(&timing(2, 1));
    let late = simulate(&timing(2, 50));
    assert_eq!(early.background_times, (0..10).collect::<Vec<u64>>());
    assert_eq!(early.background_times, late.background_times);
}

#[test]
fn finish_waits_for_the_later_task() {
    let tl = simulate(&timing(2, 50));
    assert_eq!(tl.stop_observed_at, 50);
    assert_eq!(tl.work_times.len(), 25);
    assert_eq!(tl.finished_at, 50);
}
