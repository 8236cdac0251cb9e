use osprey_svc::engine::ring_decision;
use osprey_svc::metrics::{ms_since_epoch, now_ms};
use osprey_svc::relay::device_path;
use osprey_svc::ring::RING_INTERVAL_MS;
use osprey_svc::service::{exit_code, launch_arguments, status_report, InstallOptions, ServiceState};
use osprey_svc::text::{decimal_string, wide};

const STEP: i64 = RING_INTERVAL_MS as i64;

#[test]
fn the_first_storable_sample_starts_the_grid() {
    assert_eq!(ring_decision(None, 1_000, true), (true, Some(1_000 + STEP)));
    assert_eq!(ring_decision(None, 1_000, false), (false, None));
}

#[test]
fn a_sample_before_the_due_point_is_not_stored() {
    assert_eq!(ring_decision(Some(5_000), 4_999, true), (false, Some(5_000)));
}

#[test]
fn the_grid_snaps_forward_after_an_outage() {
    // Due at 5 s; a sample arrives ten and a half intervals late.
    let late = 5_000 + 10 * STEP + STEP / 2;
    assert_eq!(ring_decision(Some(5_000), late, true), (true, Some(5_000 + 11 * STEP)));
    // Exactly on a grid point: the next point is one interval later.
    assert_eq!(ring_decision(Some(5_000), 5_000, true), (true, Some(5_000 + STEP)));
}

#[test]
fn an_unknown_rate_is_never_stored() {
    assert_eq!(ring_decision(Some(5_000), 90_000, false), (false, Some(5_000)));
}

#[test]
fn the_clock_reads_milliseconds_since_the_epoch() {
    assert_eq!(ms_since_epoch(None), 0);
    assert_eq!(ms_since_epoch(Some(5)), 5);
    assert_eq!(ms_since_epoch(Some(u128::MAX)), i64::MAX);
    assert!(now_ms() > 1_600_000_000_000);
}

#[test]
fn decimal_and_wide_text() {
    assert_eq!(decimal_string(0), "0");
    assert_eq!(decimal_string(47010), "47010");
    assert_eq!(wide("C:\\"), vec![67, 58, 92, 0]);
    assert_eq!(wide("😀"), vec![0xD83D, 0xDE00, 0]);
}

#[test]
fn the_registered_command_line_carries_the_flags() {
    let with = InstallOptions { port: 47010, advertise_mdns: true, firewall_rule: true, start: true };
    assert_eq!(launch_arguments(&with), vec!["service", "--port", "47010"]);
    let without = InstallOptions { advertise_mdns: false, ..with };
    assert_eq!(launch_arguments(&without), vec!["service", "--port", "47010", "--no-mdns"]);
}

#[test]
fn only_a_running_service_accepts_stop() {
    assert!(status_report(ServiceState::Running, 0).accepts_stop);
    assert!(!status_report(ServiceState::StopPending, 1).accepts_stop);
    assert_eq!(status_report(ServiceState::StartPending, 1).wait_hint_secs, 20);
    assert_eq!(status_report(ServiceState::Running, 0).wait_hint_secs, 0);
    assert_eq!(exit_code(true), 0);
    assert_eq!(exit_code(false), 1);
}

#[test]
fn a_device_path_names_the_device_uuid() {
    assert_eq!(device_path(0x10), "/v1/devices/00000000-0000-0000-0000-000000000010");
}
