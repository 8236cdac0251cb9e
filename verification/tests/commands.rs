use osprey_svc::commands::{
    audit_account, choose_relay, default_display_name, enrolled_with, enrollment_secret, may_start,
    qr_relay_fields, relay_revocations, relay_target, still_pinned, EnrolError, PairOptions, RunOptions,
    TokenRead, DEFAULT_PAIRING_TTL_SECS,
};
use osprey_svc::lan::DEFAULT_LAN_PORT;
use osprey_svc::relay::{DeviceToken, RelayUrlError};
use osprey_svc::state::{PairedPeer, PinnedPeer, RelayEnrolment};

fn enrolment() -> RelayEnrolment {
    RelayEnrolment { base_url: "https://relay.example".to_owned(), account_id: 1, device_id: 2 }
}

fn peer(seed: u8, relay_device_id: Option<u128>) -> PairedPeer {
    PairedPeer {
        pinned: PinnedPeer { identity_pub: [seed; 32], noise_static_pub: [seed; 32], fingerprint: format!("{seed:02x}") },
        relay_device_id,
        paired_at_ms: 0,
    }
}

#[test]
fn defaults_match_the_documented_values() {
    let pair = PairOptions::default();
    assert_eq!(pair.port, DEFAULT_LAN_PORT);
    assert_eq!(pair.ttl_secs, DEFAULT_PAIRING_TTL_SECS);
    assert!(!pair.lan_only);
    let run = RunOptions::default();
    assert!(!run.advertise_mdns);
    assert!(run.require_paired_controller);
}

#[test]
fn the_console_refuses_to_run_with_nothing_paired() {
    let console = RunOptions::default();
    assert!(!may_start(0, &console));
    assert!(may_start(1, &console));
    let service = RunOptions { require_paired_controller: false, ..console };
    assert!(may_start(0, &service));
}

#[test]
fn a_relay_target_needs_both_the_enrolment_and_its_token() {
    let e = enrolment();
    let target = relay_target(Some(&e), TokenRead::Found(DeviceToken::new("t".to_owned()))).expect("target");
    assert_eq!(target.base_url, "https://relay.example");
    assert_eq!(target.token.as_str(), "t");
    assert!(relay_target(Some(&e), TokenRead::Missing).is_none());
    assert!(relay_target(Some(&e), TokenRead::Unreadable).is_none());
    assert!(relay_target(None, TokenRead::Found(DeviceToken::new("t".to_owned()))).is_none());
}

#[test]
fn a_peer_unpaired_during_its_handshake_is_refused() {
    let current = [peer(1, None)];
    assert!(still_pinned(&current, &peer(1, None).pinned));
    assert!(!still_pinned(&current, &peer(2, None).pinned));
}

#[test]
fn the_relay_choice_prefers_the_command_line() {
    let e = enrolment();
    assert!(choose_relay(true, &Some("https://x".to_owned()), Some(&e)).expect("lan").is_none());
    assert_eq!(choose_relay(false, &None, None).err(), Some(EnrolError::NoRelayConfigured));
    let client = choose_relay(false, &Some("https://other/".to_owned()), Some(&e)).expect("ok").expect("client");
    assert_eq!(client.base_url(), "https://other");
    assert!(!enrolled_with(Some(&e), &client));
    let stored = choose_relay(false, &None, Some(&e)).expect("ok").expect("client");
    assert!(enrolled_with(Some(&e), &stored));
    assert_eq!(
        choose_relay(false, &Some("relay.example".to_owned()), None).err(),
        Some(EnrolError::BadRelayUrl(RelayUrlError::NotHttp))
    );
}

#[test]
fn the_enrolment_secret_comes_from_the_flag_then_the_environment() {
    assert_eq!(enrollment_secret(Some("a".to_owned()), Some("b".to_owned())), Ok("a".to_owned()));
    assert_eq!(enrollment_secret(None, Some("b".to_owned())), Ok("b".to_owned()));
    assert_eq!(enrollment_secret(None, None), Err(EnrolError::NeedsEnrollmentSecret));
}

#[test]
fn a_lan_only_qr_carries_no_relay() {
    let e = enrolment();
    assert_eq!(qr_relay_fields(None, true), (String::new(), String::new()));
    assert_eq!(qr_relay_fields(Some(&e), false), (String::new(), String::new()));
    assert_eq!(
        qr_relay_fields(Some(&e), true),
        ("https://relay.example".to_owned(), "00000000-0000-0000-0000-000000000001".to_owned())
    );
    assert_eq!(audit_account(None), "lan-only");
    assert_eq!(audit_account(Some(&e)), "00000000-0000-0000-0000-000000000001");
}

#[test]
fn only_relay_paired_peers_are_revoked_at_the_relay() {
    let removed = [peer(1, Some(10)), peer(2, None), peer(3, Some(30))];
    assert_eq!(relay_revocations(&removed), vec![10, 30]);
}

#[test]
fn the_display_name_falls_back_in_order() {
    assert_eq!(default_display_name(Some("  BOX  ".to_owned()), Some("h".to_owned())), "BOX");
    assert_eq!(default_display_name(Some("   ".to_owned()), Some("h".to_owned())), "h");
    assert_eq!(default_display_name(None, None), "osprey-host");
}
