use osprey_svc::state::{
    validate_state, HostState, PairedPeer, PeerSelector, PinnedPeer, RelayEnrolment, SelectorError,
    StateError, STATE_VERSION,
};

fn peer(seed: u8, fingerprint: &str) -> PairedPeer {
    PairedPeer {
        pinned: PinnedPeer {
            identity_pub: [seed; 32],
            noise_static_pub: [seed.wrapping_add(100); 32],
            fingerprint: fingerprint.to_owned(),
        },
        relay_device_id: None,
        paired_at_ms: 0,
    }
}

#[test]
fn selector_parses_all_uuids_and_fingerprint_prefixes() {
    assert_eq!(PeerSelector::parse("ALL").expect("all"), PeerSelector::All);
    let id = uuid::Uuid::new_v4();
    assert_eq!(
        PeerSelector::parse(&id.to_string()).expect("uuid"),
        PeerSelector::DeviceId(id.as_u128())
    );
    assert_eq!(
        PeerSelector::parse("AABB-CCDD").expect("fingerprint"),
        PeerSelector::FingerprintPrefix("aabbccdd".into())
    );
    assert!(PeerSelector::parse("aabb").is_err());
    assert_eq!(PeerSelector::parse("not-hex-at-all"), Err(SelectorError::Unrecognised));
    assert_eq!(PeerSelector::parse("  all  ").expect("trimmed"), PeerSelector::All);
}

#[test]
fn removing_by_fingerprint_leaves_other_peers_pinned() {
    let mut state = HostState::fresh(1, "host");
    let keep = peer(1, "11111111aaaa");
    let drop = peer(2, "22222222bbbb");
    state.add_peer(keep.clone());
    state.add_peer(drop.clone());

    let selector = PeerSelector::parse(&drop.fingerprint().to_string()).expect("selector");
    let removed = state.remove_peers(&selector);
    assert_eq!(removed, vec![drop]);
    assert_eq!(state.peers(), &[keep]);
}

#[test]
fn repairing_the_same_identity_replaces_the_pin() {
    let mut state = HostState::fresh(1, "host");
    let first = peer(7, "77777777");
    let mut second = first.clone();
    second.pinned.noise_static_pub = [9; 32];
    second.paired_at_ms = 1;
    state.add_peer(first);
    state.add_peer(second.clone());
    assert_eq!(state.peers(), &[second]);
}

#[test]
fn a_revocation_nonce_is_accepted_once_and_pruned_when_it_can_no_longer_replay() {
    let mut state = HostState::fresh(1, "host");
    let window_ms = 300_000i64;
    assert!(state.consume_revocation_nonce(&[1u8; 32], 1_000, 1_000, window_ms));
    assert!(
        !state.consume_revocation_nonce(&[1u8; 32], 1_000, 1_000, window_ms),
        "a nonce must not be accepted twice"
    );
    state.consume_revocation_nonce(&[2u8; 32], 1_000_000, 1_000_000, window_ms);
    assert_eq!(state.consumed_revocations().len(), 1);
    assert_eq!(state.consumed_revocations()[0].nonce, "02".repeat(32));
}

#[test]
fn selecting_by_device_id_and_all() {
    let mut state = HostState::fresh(1, "host");
    let mut relayed = peer(3, "33333333");
    relayed.relay_device_id = Some(42);
    state.add_peer(peer(4, "44444444"));
    state.add_peer(relayed.clone());
    assert_eq!(state.remove_peers(&PeerSelector::DeviceId(42)), vec![relayed]);
    assert_eq!(state.remove_peers(&PeerSelector::All).len(), 1);
    assert!(state.peers().is_empty());
}

#[test]
fn a_fresh_state_is_empty_and_keeps_its_relay() {
    let mut state = HostState::fresh(5, "host");
    assert_eq!(state.device_id(), 5);
    assert_eq!(state.display_name(), "host");
    assert!(state.relay().is_none());
    let relay = RelayEnrolment { base_url: "https://r".to_owned(), account_id: 1, device_id: 2 };
    state.set_relay(relay.clone());
    assert_eq!(state.relay(), Some(&relay));
    state.add_peer(peer(1, "aaaaaaaa"));
    assert_eq!(state.pins(), vec![peer(1, "aaaaaaaa").pinned]);
}

#[test]
fn a_tampered_pin_store_is_refused_rather_than_loaded() {
    assert_eq!(validate_state(STATE_VERSION, &[true, false, false]), Err(StateError::Tampered { index: 1 }));
    assert_eq!(validate_state(STATE_VERSION, &[true, true]), Ok(()));
    assert_eq!(validate_state(1, &[]), Err(StateError::VersionMismatch { found: 1 }));
}

#[test]
fn selectors_describe_themselves() {
    assert_eq!(PeerSelector::All.describe(), "all pinned controllers");
    assert_eq!(PeerSelector::DeviceId(1).describe(), "relay device 00000000-0000-0000-0000-000000000001");
    assert_eq!(PeerSelector::FingerprintPrefix("aabbccdd".to_owned()).describe(), "fingerprint prefix aabbccdd");
}

#[test]
fn every_unicode_space_around_a_selector_is_ignored() {
    for raw in ["\u{a0}all\u{3000}", "\tall\n", "\u{2003}\u{205f}ALL\u{2029}", "\u{85}all\u{1680}"] {
        assert_eq!(PeerSelector::parse(raw), Ok(PeerSelector::All), "for {raw:?}");
    }
    // A zero-width space is not white space, so the text is not `all`.
    assert_eq!(PeerSelector::parse("\u{200b}all"), Err(SelectorError::Unrecognised));
}
