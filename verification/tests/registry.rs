use osprey_svc::registry::SessionRegistry;
use osprey_svc::state::PinnedPeer;

fn sorted(mut ids: Vec<u64>) -> Vec<u64> {
    ids.sort_unstable();
    ids
}

fn pin(seed: u8) -> PinnedPeer {
    PinnedPeer { identity_pub: [seed; 32], noise_static_pub: [0; 32], fingerprint: String::new() }
}

#[test]
fn revoking_an_identity_selects_only_its_sessions() {
    let mut registry = SessionRegistry::new();
    let a = registry.register([1; 32]).expect("id");
    let b = registry.register([2; 32]).expect("id");
    let c = registry.register([1; 32]).expect("id");
    assert_eq!(sorted(registry.revoke_identity(&[1; 32])), vec![a, c]);
    assert_eq!(registry.revoke_identity(&[3; 32]), Vec::<u64>::new());
    assert_eq!(sorted(registry.revoke_all()), vec![a, b, c]);
    assert_eq!(registry.live_count(), 3);
}

#[test]
fn retain_pinned_closes_only_unpinned_peers() {
    let mut registry = SessionRegistry::new();
    let kept = pin(2);
    let dropped = registry.register([1; 32]).expect("id");
    let _kept_session = registry.register(kept.identity_pub).expect("id");
    assert_eq!(registry.retain_pinned(&[kept]), vec![dropped]);
    assert_eq!(sorted(registry.retain_pinned(&[])).len(), 2);
}

#[test]
fn a_finished_session_is_forgotten_and_its_id_not_reused() {
    let mut registry = SessionRegistry::new();
    let a = registry.register([1; 32]).expect("id");
    registry.remove(a);
    assert_eq!(registry.live_count(), 0);
    let b = registry.register([1; 32]).expect("id");
    assert_ne!(a, b);
    assert_eq!(registry.revoke_identity(&[1; 32]), vec![b]);
}

#[test]
fn a_different_identity_is_left_alone() {
    let mut registry = SessionRegistry::new();
    let _id = registry.register([1u8; 32]).expect("id");
    assert_eq!(registry.revoke_identity(&[2u8; 32]).len(), 0);
    assert_eq!(registry.live_count(), 1);
}

#[test]
fn a_fresh_registry_numbers_sessions_from_zero() {
    let mut registry = SessionRegistry::new();
    assert_eq!(registry.register([5; 32]), Some(0));
    assert_eq!(registry.register([5; 32]), Some(1));
    assert_eq!(registry.live_count(), 2);
}

#[test]
fn every_registration_gets_the_next_id_and_is_revocable() {
    let mut registry = SessionRegistry::new();
    let kept = pin(2);
    let first = registry.register([1; 32]).expect("id");
    let second = registry.register(kept.identity_pub).expect("id");
    let third = registry.register([3; 32]).expect("id");
    assert_eq!((first, second, third), (0, 1, 2));
    assert_eq!(sorted(registry.retain_pinned(&[kept])), vec![first, third]);
}
