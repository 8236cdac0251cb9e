use std::path::PathBuf;

use osprey_svc::helper::{helper_command_line, message_end, Child, ExitCheck, StatusChange, Supervisor, HEALTHY_AFTER_MS, INTERACTIVE_DESKTOP, MAX_MESSAGE, PIPE_NAME, PIPE_SDDL};

use osprey_svc::helper::{
    active_console_session, console_session_from_raw, helper_executable_in, next_respawn_delay,
    LIVENESS_POLL_MS, NO_ACTIVE_SESSION, RESPAWN_BASE_DELAY_MS, RESPAWN_MAX_DELAY_MS,
};

#[test]
fn the_console_session_is_reported_consistently() {
    let first = active_console_session();
    let second = active_console_session();
    assert_eq!(first, second);
    assert_ne!(first, Some(NO_ACTIVE_SESSION));
}

#[test]
fn the_sentinel_session_means_no_session() {
    assert_eq!(console_session_from_raw(NO_ACTIVE_SESSION), None);
    assert_eq!(console_session_from_raw(1), Some(1));
}

#[test]
fn the_backoff_ceiling_is_reached_by_doubling_and_never_exceeded() {
    let mut delay = RESPAWN_BASE_DELAY_MS;
    for _ in 0..20 {
        delay = next_respawn_delay(delay);
        assert!(delay <= RESPAWN_MAX_DELAY_MS);
    }
    assert_eq!(delay, RESPAWN_MAX_DELAY_MS);
}

#[test]
fn the_first_respawn_fits_inside_the_gate_budget() {
    let worst_case = LIVENESS_POLL_MS + RESPAWN_BASE_DELAY_MS;
    assert!(
        worst_case < 1_000,
        "detection plus first backoff is {worst_case} ms, too close to the 3s budget"
    );
}

#[test]
fn the_helper_is_a_sibling_of_the_service() {
    let dir = PathBuf::from("/opt/osprey");
    assert_eq!(helper_executable_in(dir.clone(), false), PathBuf::from("/opt/osprey/osprey-helper"));
    assert_eq!(helper_executable_in(dir, true), PathBuf::from("/opt/osprey/osprey-helper.exe"));
}

#[test]
fn a_supervisor_starts_and_stops_without_a_session() {
    let mut supervisor = Supervisor::new();
    assert_eq!(supervisor.observe_session(None), StatusChange::Unchanged);
    assert!(!supervisor.should_spawn(None, 0));
    assert!(supervisor.should_spawn(Some(1), 0));
}

#[test]
fn a_crash_looping_helper_backs_off_and_a_healthy_one_resets() {
    let mut supervisor = Supervisor::new();
    let child = Child { pid: 7, session: 1 };
    assert_eq!(supervisor.observe_spawn(Some(child), 0), StatusChange::Started { session: 1 });
    assert_eq!(supervisor.observe_exit(ExitCheck::Exited(1), 10), StatusChange::Stopped);
    assert_eq!(supervisor.delay_ms, 2 * RESPAWN_BASE_DELAY_MS);
    assert_eq!(supervisor.retry_at_ms, Some(10 + 2 * RESPAWN_BASE_DELAY_MS));
    assert!(!supervisor.should_spawn(Some(1), 10));
    assert!(supervisor.should_spawn(Some(1), 10 + 2 * RESPAWN_BASE_DELAY_MS));
    supervisor.observe_spawn(Some(child), 1_000);
    supervisor.observe_exit(ExitCheck::Exited(0), 1_000 + HEALTHY_AFTER_MS);
    assert_eq!(supervisor.delay_ms, RESPAWN_BASE_DELAY_MS);
    // A logout makes the helper stale without counting as a crash.
    supervisor.observe_spawn(Some(child), 50_000);
    assert_eq!(supervisor.observe_session(Some(2)), StatusChange::Stopped);
    assert_eq!(supervisor.delay_ms, RESPAWN_BASE_DELAY_MS);
}

#[test]
fn the_pipe_sddl_names_exactly_the_three_intended_trustees() {
    assert!(PIPE_SDDL.starts_with("D:P"), "the DACL must not be inheritable");
    assert!(PIPE_SDDL.contains("(A;;GA;;;SY)"), "SYSTEM needs full control");
    assert!(PIPE_SDDL.contains("(A;;GA;;;BA)"), "Administrators need full control");
    assert!(PIPE_SDDL.contains("(A;;GRGW;;;IU)"), "the interactive user needs read/write to connect at all");
    assert_eq!(PIPE_SDDL.matches("(A;").count(), 3, "exactly three trustees were intended: {PIPE_SDDL}");
    assert!(!PIPE_SDDL.contains(";WD)") && !PIPE_SDDL.contains(";AU)"));
    assert_eq!(PIPE_NAME, r"\\.\pipe\osprey-helper");
}

#[test]
fn the_helper_command_line_quotes_the_executable() {
    assert_eq!(
        helper_command_line(r"C:\Program Files\Osprey\osprey-helper.exe", "run"),
        r#""C:\Program Files\Osprey\osprey-helper.exe" run"#
    );
    assert_eq!(INTERACTIVE_DESKTOP, r"winsta0\default");
}

#[test]
fn a_pipe_read_is_clamped_to_the_buffer() {
    assert_eq!(message_end(0, 8), None);
    assert_eq!(message_end(5, 8), Some(5));
    assert_eq!(message_end(9, 8), Some(8));
    assert_eq!(MAX_MESSAGE, 8 * 1024);
}

#[test]
fn a_failed_exit_check_reports_no_helper_and_keeps_the_delay() {
    let mut supervisor = Supervisor::new();
    supervisor.observe_spawn(Some(Child { pid: 9, session: 3 }), 0);
    assert_eq!(supervisor.observe_exit(ExitCheck::Failed, 5), StatusChange::Stopped);
    assert_eq!(supervisor.delay_ms, RESPAWN_BASE_DELAY_MS);
    assert_eq!(supervisor.retry_at_ms, Some(5 + RESPAWN_BASE_DELAY_MS));
    assert!(!supervisor.should_spawn(Some(3), 5));
}
