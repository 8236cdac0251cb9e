use base64::Engine;
use osprey_svc::relay::{
    find_device, revoke_answer, status_is_success, DeviceSummary, DeviceToken, PeerMaterial,
    PublicIdentity, RelayClient, RelayUrlError, RevokeAnswer,
};

#[test]
fn rejects_a_non_http_relay_url() {
    assert_eq!(RelayClient::new("ws://relay.example").err(), Some(RelayUrlError::NotHttp));
    assert!(RelayClient::new("relay.example").is_err());
}

#[test]
fn trailing_slashes_do_not_produce_double_slashed_paths() {
    let client = RelayClient::new("https://relay.example/").expect("client");
    assert_eq!(client.url("/v1/devices"), "https://relay.example/v1/devices");
    assert_eq!(client.base_url(), "https://relay.example");
}

#[test]
fn device_token_is_redacted_in_debug() {
    let token = DeviceToken::new("acct.secret".to_owned());
    assert_eq!(token.debug_text(), "DeviceToken(redacted)");
    assert_eq!(token.header(), "Bearer acct.secret");
    assert_eq!(token.as_str(), "acct.secret");
}

#[test]
fn peer_material_is_base64_of_the_raw_keys() {
    let identity = PublicIdentity {
        identity_pub: vec![1, 2, 3],
        identity_algorithm: "ed25519".to_owned(),
        noise_static_pub: [7; 32],
        noise_static_sig: vec![9; 64],
    };
    let material = PeerMaterial::from_identity("host", &identity);
    let decoded = base64::engine::general_purpose::STANDARD
        .decode(&material.identity_public_key)
        .expect("decode");
    assert_eq!(decoded, identity.identity_pub);
    assert_eq!(material.identity_public_key, "AQID");
    assert_eq!(material.identity_algorithm, "ed25519");
    assert_eq!(material.display_name, "host");
}

#[test]
fn a_device_is_found_by_its_identity_key() {
    let devices = [
        DeviceSummary { id: 1, identity_public_key: "AAAA".to_owned() },
        DeviceSummary { id: 2, identity_public_key: "AQID".to_owned() },
        DeviceSummary { id: 3, identity_public_key: "AQID".to_owned() },
    ];
    assert_eq!(find_device(&devices, &[1, 2, 3]), Some(2));
    assert_eq!(find_device(&devices, &[4]), None);
}

#[test]
fn a_missing_device_is_success_in_substance() {
    assert_eq!(revoke_answer(404), RevokeAnswer::NoSuchDevice);
    assert_eq!(revoke_answer(204), RevokeAnswer::Revoked);
    assert_eq!(revoke_answer(500), RevokeAnswer::Refused);
    assert!(status_is_success(200));
    assert!(!status_is_success(301));
}

#[test]
fn a_final_partial_group_is_padded() {
    let identity = PublicIdentity {
        identity_pub: vec![77],
        identity_algorithm: "ed25519".to_owned(),
        noise_static_pub: [7; 32],
        noise_static_sig: vec![77, 97],
    };
    let material = PeerMaterial::from_identity("host", &identity);
    assert_eq!(material.identity_public_key, "TQ==");
    assert_eq!(material.noise_static_signature, "TWE=");
    assert_eq!(material.noise_static_public_key, format!("{}Bwc=", "BwcH".repeat(10)));
}
