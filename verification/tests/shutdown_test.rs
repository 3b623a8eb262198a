use excelsior::shutdown::{shutdown_signal, termination, Coordinator, Phase, Signal, Termination};

#[test]
fn test_shutdown_signal_timeout() {
    // No signal is sent: the service keeps running and may not exit.
    let coordinator = Coordinator::new(true);

    assert_eq!(coordinator.phase(), Phase::Running);
    assert!(!coordinator.may_exit());
}

#[test]
fn test_shutdown_signal_ctrl_c() {
    let mut coordinator = Coordinator::new(true);

    assert!(shutdown_signal(&mut coordinator, Signal::Interrupt));
    assert_eq!(coordinator.phase(), Phase::Draining);
}

#[test]
fn terminate_counts_only_where_the_platform_has_it() {
    let mut with = Coordinator::new(true);
    assert!(with.listens_for(Signal::Interrupt));
    assert!(with.listens_for(Signal::Terminate));
    assert!(shutdown_signal(&mut with, Signal::Terminate));
    assert_eq!(with.phase(), Phase::Draining);

    let mut without = Coordinator::new(false);
    assert!(without.listens_for(Signal::Interrupt));
    assert!(!without.listens_for(Signal::Terminate));
    assert!(!shutdown_signal(&mut without, Signal::Terminate));
    assert_eq!(without.phase(), Phase::Running);
    assert!(without.offer());
    assert!(shutdown_signal(&mut without, Signal::Interrupt));
    assert_eq!(without.phase(), Phase::Draining);
    assert_eq!(without.in_flight(), 1);
}

#[test]
fn in_flight_requests_finish_before_the_exit() {
    let mut coordinator = Coordinator::new(true);
    assert!(coordinator.offer());
    assert!(coordinator.offer());
    assert_eq!(coordinator.in_flight(), 2);

    assert!(shutdown_signal(&mut coordinator, Signal::Terminate));
    assert!(!coordinator.offer());
    assert_eq!(coordinator.in_flight(), 2);
    assert!(!coordinator.may_exit());

    coordinator.complete();
    assert!(!coordinator.may_exit());
    assert!(!coordinator.offer());
    coordinator.complete();
    assert_eq!(coordinator.in_flight(), 0);
    assert!(coordinator.may_exit());

    // A second signal changes nothing, nor does a stray completion.
    assert!(shutdown_signal(&mut coordinator, Signal::Interrupt));
    coordinator.complete();
    assert_eq!(coordinator.in_flight(), 0);
    assert!(coordinator.may_exit());
    assert!(!coordinator.offer());
}

#[test]
fn idle_service_exits_at_once() {
    let mut coordinator = Coordinator::new(false);
    assert!(!coordinator.may_exit());
    coordinator.complete();
    assert_eq!(coordinator.in_flight(), 0);
    assert!(shutdown_signal(&mut coordinator, Signal::Interrupt));
    assert!(coordinator.may_exit());
}

#[test]
fn serve_error_is_the_cause_of_an_abnormal_end() {
    assert!(matches!(termination(None), Termination::Clean));
    match termination(Some("listener failed".to_string())) {
        Termination::Abnormal(cause) => assert_eq!(cause, "listener failed"),
        Termination::Clean => panic!("the error was dropped"),
    }
}
