use osprey_svc::revoke::{apply, remove_pin, ErrorCode, RevocationRefusal, RevocationRejection};
use osprey_svc::state::{HostState, PairedPeer, PinnedPeer};

fn peer(seed: u8, fingerprint: &str) -> PairedPeer {
    PairedPeer {
        pinned: PinnedPeer { identity_pub: [seed; 32], noise_static_pub: [seed; 32], fingerprint: fingerprint.to_owned() },
        relay_device_id: None,
        paired_at_ms: 0,
    }
}

#[test]
fn refusal_codes_match_the_wire_classes() {
    assert_eq!(RevocationRefusal::Rejected(RevocationRejection::Malformed).code(), ErrorCode::BadRequest);
    assert_eq!(RevocationRefusal::Rejected(RevocationRejection::ReplayedNonce).code(), ErrorCode::Conflict);
    assert_eq!(RevocationRefusal::Rejected(RevocationRejection::BadSignature).code(), ErrorCode::Unauthorized);
    assert_eq!(RevocationRefusal::Rejected(RevocationRejection::StaleClock).code(), ErrorCode::Unauthorized);
    assert_eq!(RevocationRefusal::NotApplied("disk".to_owned()).code(), ErrorCode::Internal);
    assert_eq!(
        RevocationRefusal::NotApplied("C:\\secret".to_owned()).wire_message(),
        "the revocation could not be applied at the host"
    );
}

#[test]
fn a_signed_pair_revoke_unpins_the_peer() {
    let mut state = HostState::fresh(1, "host");
    let target = peer(1, "aaaaaaaabbbb");
    state.add_peer(target.clone());
    state.add_peer(peer(2, "ccccccccdddd"));
    let applied = apply(&mut state, Ok(vec![5; 32]), &target.pinned, 1_000, 1_000, 300_000).expect("applied");
    assert_eq!(applied.removed, vec![target]);
    assert_eq!(applied.fingerprint, "aaaaaaaabbbb");
    assert_eq!(state.peers().len(), 1);
}

#[test]
fn a_revocation_signed_by_the_wrong_identity_is_refused_and_the_pairing_survives() {
    let mut state = HostState::fresh(1, "host");
    let target = peer(1, "aaaaaaaabbbb");
    state.add_peer(target.clone());
    let refused = apply(&mut state, Err(RevocationRejection::BadSignature), &target.pinned, 0, 0, 300_000);
    assert_eq!(refused.err(), Some(RevocationRefusal::Rejected(RevocationRejection::BadSignature)));
    assert_eq!(state.peers(), &[target]);
    assert!(state.consumed_revocations().is_empty());
}

#[test]
fn a_replayed_nonce_is_refused_even_after_the_operator_re_pairs() {
    let mut state = HostState::fresh(1, "host");
    let target = peer(1, "aaaaaaaabbbb");
    state.add_peer(target.clone());
    remove_pin(&mut state, "aaaaaaaabbbb", &[3; 32], 1_000, 1_000, 300_000).expect("first");
    assert!(state.peers().is_empty());
    state.add_peer(target.clone());
    let replay = remove_pin(&mut state, "aaaaaaaabbbb", &[3; 32], 1_000, 2_000, 300_000);
    assert_eq!(replay.err(), Some(RevocationRefusal::Rejected(RevocationRejection::ReplayedNonce)));
    assert_eq!(state.peers(), &[target], "the re-paired peer survives a replay");
}

#[test]
fn a_refusal_describes_itself_for_the_log() {
    assert_eq!(
        RevocationRefusal::Rejected(RevocationRejection::StaleClock).describe(),
        "rejected: issued_at is outside the accepted clock window"
    );
    assert_eq!(RevocationRefusal::NotApplied("disk full".to_owned()).describe(), "not applied: disk full");
    assert_eq!(
        RevocationRefusal::Rejected(RevocationRejection::Malformed).wire_message(),
        "pair.revoke refused: the message is not a well-formed revocation"
    );
}

#[test]
fn a_stale_issued_at_is_refused() {
    let mut state = HostState::fresh(1, "host");
    let target = peer(1, "aaaaaaaabbbb");
    state.add_peer(target.clone());
    let refused = apply(&mut state, Err(RevocationRejection::StaleClock), &target.pinned, 0, 10_000_000, 300_000);
    let refusal = refused.err().expect("refused");
    assert_eq!(refusal, RevocationRefusal::Rejected(RevocationRejection::StaleClock));
    assert_eq!(refusal.code(), ErrorCode::Unauthorized);
    assert_eq!(state.peers(), &[target]);
}
