use std::path::PathBuf;
use std::time::Duration;

use osprey_svc::cli::{install_options, pair_options, rotate_service_log, run_options, service_options, uninstall_options, Command};
use osprey_svc::engine::{keeps_subscriber, sampler_interval_ms, spacing_wait_ms, FailureReport, SendOutcome};
use osprey_svc::pacing::{is_timeout, PeekErrorKind};
use osprey_svc::service::{dispatch, harden_data_dir, install, uninstall, Dispatched};

#[test]
fn registration_needs_a_service_control_manager() {
    let options = install_options(47010, false, false, false);
    assert!(options.advertise_mdns && options.firewall_rule && options.start);
    assert_eq!(
        install(&options).expect_err("refused").message,
        "`install` registers a Windows service and only works on Windows"
    );
    assert!(uninstall(&uninstall_options(true)).is_err());
    assert!(harden_data_dir(&PathBuf::from("/tmp")).is_err());
}

#[test]
fn the_service_entry_falls_back_to_the_console() {
    let options = service_options(1, true, None);
    assert!(!options.advertise_mdns);
    assert_eq!(dispatch(&options), Ok(Dispatched::NotUnderScm));
}

#[test]
fn the_install_flags_turn_each_feature_off() {
    let options = install_options(47010, false, false, false);
    assert!(options.firewall_rule);
    assert!(options.start);
    let opted_out = install_options(47010, true, true, true);
    assert!(!opted_out.firewall_rule && !opted_out.start && !opted_out.advertise_mdns);
}

#[test]
fn flags_become_options() {
    let run = run_options(5, true, true);
    assert!(!run.advertise_mdns && run.require_paired_controller);
    let pair = pair_options(None, None, true, 6, 30);
    assert!(pair.lan_only);
    assert_eq!(pair.ttl_secs, 30);
    assert_eq!(Command::pairing_ttl(120), Duration::from_secs(120));
    assert!(rotate_service_log(8 * 1024 * 1024 + 1));
    assert!(!rotate_service_log(8 * 1024 * 1024));
}

#[test]
fn the_sampler_paces_itself() {
    assert_eq!(sampler_interval_ms(true), 1_000);
    assert_eq!(sampler_interval_ms(false), 30_000);
    assert_eq!(spacing_wait_ms(Some(100)), 150);
    assert_eq!(spacing_wait_ms(Some(400)), 0);
    assert_eq!(spacing_wait_ms(None), 0);
}

#[test]
fn a_collection_failure_is_reported_once() {
    let mut report = FailureReport::new();
    assert!(report.on_failure());
    assert!(!report.on_failure());
    assert!(report.on_success());
    assert!(!report.on_success());
    assert!(keeps_subscriber(SendOutcome::Full));
    assert!(!keeps_subscriber(SendOutcome::Disconnected));
}

#[test]
fn both_timeout_kinds_mean_nothing_arrived() {
    assert!(is_timeout(PeekErrorKind::WouldBlock));
    assert!(is_timeout(PeekErrorKind::TimedOut));
    assert!(!is_timeout(PeekErrorKind::Other));
}
