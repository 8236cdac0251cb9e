use osprey_svc::link::{Disconnect, HEALTHY_AFTER_MS};
use osprey_svc::supervisor::{LinkOutcome, RelaySupervisor, SupervisorStep};

fn delay(step: SupervisorStep) -> u64 {
    match step {
        SupervisorStep::RetryAfter(ms) => ms,
        SupervisorStep::Stop => panic!("expected a retry"),
    }
}

#[test]
fn an_unreachable_relay_is_retried_rather_than_fatal() {
    let mut supervisor = RelaySupervisor::new();
    for _ in 0..5 {
        let step = supervisor.supervise(&LinkOutcome::AttachFailed);
        assert!(matches!(step, SupervisorStep::RetryAfter(_)));
    }
    assert_eq!(supervisor.attempts(), 5);
}

#[test]
fn a_terminal_disconnect_stops_the_supervisor() {
    let mut supervisor = RelaySupervisor::new();
    let step = supervisor.supervise(&LinkOutcome::Ended {
        lasted_ms: 5,
        disconnect: Some(Disconnect::Terminal("revoked".to_owned())),
    });
    assert_eq!(step, SupervisorStep::Stop);
}

#[test]
fn shutdown_stops_the_supervisor() {
    let mut supervisor = RelaySupervisor::new();
    let step = supervisor.supervise(&LinkOutcome::Ended { lasted_ms: 5, disconnect: None });
    assert_eq!(step, SupervisorStep::Stop);
}

#[test]
fn only_a_link_that_lasted_resets_the_backoff() {
    let mut supervisor = RelaySupervisor::new();
    for _ in 0..6 {
        supervisor.supervise(&LinkOutcome::AttachFailed);
    }
    // A flapping link does not reset: the delay keeps growing.
    let short = delay(supervisor.supervise(&LinkOutcome::Ended {
        lasted_ms: HEALTHY_AFTER_MS - 1,
        disconnect: Some(Disconnect::Retryable("dropped".to_owned())),
    }));
    assert!(short >= 45_000, "expected a long delay, got {short}");
    assert_eq!(supervisor.attempts(), 7);
    // A healthy one starts again from the base delay.
    let fresh = delay(supervisor.supervise(&LinkOutcome::Ended {
        lasted_ms: HEALTHY_AFTER_MS,
        disconnect: Some(Disconnect::Retryable("dropped".to_owned())),
    }));
    assert!(fresh < 2_000, "expected a prompt retry, got {fresh}");
    assert_eq!(supervisor.attempts(), 1);
}
