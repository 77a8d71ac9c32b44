use coop_cancel::flag::{CancellationFlag, SharedFlag};

#[test]
fn new_flag_is_running() {
    let f = CancellationFlag::new();
    assert!(!f.is_cancelled());
}

#[test]
fn set_cancelled_is_observed() {
    let mut f = CancellationFlag::new();
    f.set_cancelled();
    assert!(f.is_cancelled());
}

#[test]
fn cancelling_twice_equals_once() {
    let mut once = CancellationFlag::new();
    once.set_cancelled();
    let mut twice = CancellationFlag::new();
    twice.set_cancelled();
    twice.set_cancelled();
    assert_eq!(once, twice);
    assert_eq!(once.is_cancelled(), twice.is_cancelled());
}

#[test]
fn observations_never_flip_back() {
    let mut f = CancellationFlag::new();
    let mut seen = Vec::new();
    for round in 0..6 {
        if round == 2 || round == 4 {
            f.set_cancelled();
        }
        seen.push(f.is_cancelled());
    }
    assert_eq!(seen, vec![false, false, true, true, true, true]);
}

#[test]
fn shared_flag_starts_running() {
    let f = SharedFlag::new();
    assert!(!f.is_cancelled());
}

#[test]
fn shared_flag_handles_see_one_cell() {
    let controller = SharedFlag::new();
    let worker = controller.share();
    assert!(!worker.is_cancelled());
    controller.set_cancelled();
    assert!(worker.is_cancelled());
    assert!(controller.is_cancelled());
}

#[test]
fn shared_flag_cancel_twice_stays_cancelled() {
    let controller = SharedFlag::new();
    let worker = controller.share();
    controller.set_cancelled();
    controller.set_cancelled();
    assert!(worker.is_cancelled());
    assert!(worker.is_cancelled());
}
