use netharness::labels::Labels;
use netharness::shutdown::ctrlc_handler;
use netharness::shutdown::shutdown_handler;
use netharness::shutdown::PostShutdown;
use netharness::shutdown::RequestShutdown;
use netharness::shutdown::ShutdownCoordinator;
use netharness::shutdown::ShutdownState;
use netharness::shutdown::ShuttingDown;

fn requests(n: usize) -> Vec<RequestShutdown> {
    let mut v = Vec::new();
    for _ in 0..n {
        v.push(RequestShutdown);
    }
    v
}

#[test]
fn one_request_runs_the_three_phases_in_three_ticks() {
    let mut c = ShutdownCoordinator::new();
    assert_eq!(c.state, ShutdownState::Idle);
    assert!(!c.exited);

    let t0 = c.tick(&requests(1));
    assert!(t0.emit_shutting_down);
    assert!(!t0.emit_post_shutdown);
    assert!(!t0.exit);
    assert_eq!(c.state, ShutdownState::ShuttingDown);

    let t1 = c.tick(&requests(0));
    assert!(!t1.emit_shutting_down);
    assert!(t1.emit_post_shutdown);
    assert!(!t1.exit);

    let t2 = c.tick(&requests(0));
    assert!(!t2.emit_shutting_down);
    assert!(!t2.emit_post_shutdown);
    assert!(t2.exit);
    assert!(c.exited);
}

#[test]
fn two_requests_in_same_tick_and_next_tick_run_one_sequence() {
    // Two shutdown signals in the same tick, and one more the tick after:
    // exactly one shutdown sequence executes.
    let mut c = ShutdownCoordinator::new();
    let mut began = 0;
    let mut completed = 0;
    let mut exits = 0;
    for reqs in [2usize, 1, 0, 0, 0] {
        let out = c.tick(&requests(reqs));
        if out.emit_shutting_down {
            began += 1;
        }
        if out.emit_post_shutdown {
            completed += 1;
        }
        if out.exit {
            exits += 1;
        }
    }
    assert_eq!(began, 1);
    assert_eq!(completed, 1);
    assert_eq!(exits, 1);
    assert!(c.exited);
}

#[test]
fn repeated_requests_over_many_ticks_run_one_sequence() {
    // The request arrives on every tick of a long run; still one sequence.
    let mut c = ShutdownCoordinator::new();
    let mut began = 0;
    let mut completed = 0;
    for _ in 0..10 {
        let out = c.tick(&requests(3));
        if out.emit_shutting_down {
            began += 1;
        }
        if out.emit_post_shutdown {
            completed += 1;
        }
    }
    assert_eq!(began, 1);
    assert_eq!(completed, 1);
    assert!(c.exited);
}

#[test]
fn no_request_means_no_shutdown() {
    let mut c = ShutdownCoordinator::new();
    for _ in 0..5 {
        let out = c.tick(&requests(0));
        assert!(!out.emit_shutting_down);
        assert!(!out.emit_post_shutdown);
        assert!(!out.exit);
    }
    assert_eq!(c.state, ShutdownState::Idle);
    assert!(!c.exited);
}

#[test]
fn handler_is_a_no_op_while_already_shutting_down() {
    let mut state = ShutdownState::ShuttingDown;
    let out = shutdown_handler(
        &mut state,
        &vec![RequestShutdown, RequestShutdown],
        &Vec::<ShuttingDown>::new(),
        &Vec::<PostShutdown>::new(),
    );
    assert!(!out.emit_shutting_down);
    assert_eq!(state, ShutdownState::ShuttingDown);
}

#[test]
fn handler_advances_each_phase_from_its_notification() {
    let mut state = ShutdownState::ShuttingDown;
    let out = shutdown_handler(
        &mut state,
        &Vec::<RequestShutdown>::new(),
        &vec![ShuttingDown],
        &vec![PostShutdown],
    );
    assert!(!out.emit_shutting_down);
    assert!(out.emit_post_shutdown);
    assert!(out.exit);
}

#[test]
fn operator_signal_becomes_one_request() {
    assert!(ctrlc_handler(true).is_some());
    assert!(ctrlc_handler(false).is_none());
}

#[test]
fn scheduling_labels_order_requesters_before_the_handler() {
    assert!(Labels::ShutdownRequester < Labels::ShutdownHandler);
}
