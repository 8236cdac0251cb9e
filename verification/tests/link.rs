use std::time::Duration;

use osprey_svc::link::{
    agent_endpoint, agent_request, classify_close, Backoff, Disconnect, EndpointError, Keepalive,
    KeepaliveStep, CLOSE_REVOKED, CLOSE_SUPERSEDED, CLOSE_WRONG_ENDPOINT, KEEPALIVE_INTERVAL_MS,
    KEEPALIVE_TIMEOUT_MS, read_slice,
};
use osprey_svc::relay::DeviceToken;
use tungstenite::client::{ClientRequestBuilder, IntoClientRequest};
use tungstenite::http::Uri;

#[test]
fn a_revoked_device_must_not_retry() {
    let outcome = classify_close(CLOSE_REVOKED, "revoked");
    assert!(
        outcome.is_terminal(),
        "retrying after revocation costs the relay an authentication scan per attempt \
         and can never succeed"
    );
}

#[test]
fn a_superseded_socket_is_an_ordinary_reconnect() {
    assert!(!classify_close(CLOSE_SUPERSEDED, "superseded").is_terminal());
}

#[test]
fn an_unrecognised_close_code_is_retryable() {
    assert!(!classify_close(1006, "abnormal").is_terminal());
    assert!(!classify_close(1001, "going away").is_terminal());
}

#[test]
fn the_wrong_endpoint_is_a_configuration_error() {
    assert!(classify_close(CLOSE_WRONG_ENDPOINT, "wrong kind").is_terminal());
}

#[test]
fn close_reasons_name_the_cause() {
    assert_eq!(
        classify_close(CLOSE_REVOKED, "revoked").reason(),
        "this device was revoked at the relay (revoked); it must be paired again"
    );
    assert_eq!(
        classify_close(CLOSE_WRONG_ENDPOINT, "kind").reason(),
        "the relay refused this endpoint for an agent device (kind)"
    );
    assert_eq!(
        classify_close(CLOSE_SUPERSEDED, "x").reason(),
        "a newer socket for this device replaced this one"
    );
    assert_eq!(
        classify_close(1006, "abnormal"),
        Disconnect::Retryable("the relay closed the link with code 1006".to_owned())
    );
}

#[test]
fn backoff_grows_and_is_capped() {
    let mut backoff = Backoff::new(1_000, 60_000);
    let first = backoff.next_delay();
    let second = backoff.next_delay();
    assert!(first < Duration::from_secs(2), "first retry must be prompt");
    assert!(second > first, "delays must grow: {first:?} then {second:?}");

    for _ in 0..40 {
        let delay = backoff.next_delay();
        assert!(
            delay <= Duration::from_secs(90),
            "delay {delay:?} exceeded the cap plus jitter"
        );
    }
}

#[test]
fn a_healthy_link_resets_the_backoff() {
    let mut backoff = Backoff::new(1_000, 60_000);
    for _ in 0..8 {
        let _ = backoff.next_delay();
    }
    assert!(backoff.attempts() > 0);
    backoff.reset();
    assert_eq!(backoff.attempts(), 0);
    assert!(backoff.next_delay() < Duration::from_secs(2));
}

#[test]
fn the_jitter_stays_within_a_quarter_of_the_scaled_delay() {
    // attempt 0, base 1 s: scaled 1000, spread 500, low 750.
    let mut backoff = Backoff::new(1_000, 60_000);
    assert_eq!(backoff.next_delay_ms_with(0), 750);
    let mut backoff = Backoff::new(1_000, 60_000);
    assert_eq!(backoff.next_delay_ms_with(499), 1_249);
    let mut backoff = Backoff::new(1_000, 60_000);
    assert_eq!(backoff.next_delay_ms_with(500), 750);
    // attempt 3: 8 s.
    let mut backoff = Backoff::new(1_000, 60_000);
    for _ in 0..3 {
        backoff.next_delay_ms_with(0);
    }
    assert_eq!(backoff.next_delay_ms_with(0), 6_000);
    // far past the cap: 60 s less a quarter.
    for _ in 0..30 {
        backoff.next_delay_ms_with(0);
    }
    assert_eq!(backoff.next_delay_ms_with(0), 45_000);
}

#[test]
fn the_read_slice_is_half_a_second() {
    assert_eq!(read_slice(), Duration::from_millis(500));
}

#[test]
fn the_endpoint_upgrades_the_scheme_and_carries_the_token() {
    let token = DeviceToken::new("acct.secret".to_owned());
    for (base, expected) in [
        ("https://relay.example", "wss://relay.example/v1/agent"),
        ("https://relay.example/", "wss://relay.example/v1/agent"),
        ("http://127.0.0.1:8099", "ws://127.0.0.1:8099/v1/agent"),
        ("wss://relay.example", "wss://relay.example/v1/agent"),
    ] {
        let attach = agent_request(base, &token).expect("build request");
        assert_eq!(attach.endpoint, expected, "for {base}");
        assert_eq!(attach.authorization, "Bearer acct.secret");
        let uri: Uri = attach.endpoint.parse().expect("the endpoint parses as a uri");
        let request = ClientRequestBuilder::new(uri)
            .with_header("Authorization", attach.authorization)
            .into_client_request()
            .expect("materialise request");
        assert_eq!(request.uri().to_string(), expected, "for {base}");
        let authorization = request
            .headers()
            .get("Authorization")
            .expect("the upgrade must carry a bearer token")
            .to_str()
            .expect("header is ascii");
        assert_eq!(authorization, "Bearer acct.secret");
    }
}

#[test]
fn a_relay_url_without_a_scheme_is_refused() {
    let token = DeviceToken::new("acct.secret".to_owned());
    assert_eq!(agent_request("relay.example", &token).err(), Some(EndpointError::NoScheme));
}

#[test]
fn the_endpoint_keeps_a_websocket_scheme() {
    assert_eq!(agent_endpoint("ws://h:1//").as_deref(), Some("ws://h:1/v1/agent"));
    assert_eq!(agent_endpoint("ftp://h"), None);
}

#[test]
fn an_endpoint_the_uri_parser_refuses_is_an_error() {
    let token = DeviceToken::new("t".to_owned());
    assert_eq!(agent_request("https://exa mple", &token).err(), Some(EndpointError::InvalidUri));
}

#[test]
fn a_keepalive_pings_on_the_interval_and_dies_on_a_missing_pong() {
    let mut keepalive = Keepalive::new(1_000);
    assert_eq!(keepalive.tick(1_000 + KEEPALIVE_INTERVAL_MS - 1), KeepaliveStep::Idle);
    assert_eq!(keepalive.tick(1_000 + KEEPALIVE_INTERVAL_MS), KeepaliveStep::SendPing);
    let sent = 1_000 + KEEPALIVE_INTERVAL_MS;
    // No second ping while one is outstanding.
    assert_eq!(keepalive.tick(sent + KEEPALIVE_TIMEOUT_MS - 1), KeepaliveStep::Idle);
    assert_eq!(keepalive.tick(sent + KEEPALIVE_TIMEOUT_MS), KeepaliveStep::Dead);
}

#[test]
fn a_pong_clears_the_outstanding_ping() {
    let mut keepalive = Keepalive::new(0);
    assert_eq!(keepalive.tick(KEEPALIVE_INTERVAL_MS), KeepaliveStep::SendPing);
    keepalive.on_pong();
    assert_eq!(keepalive.tick(KEEPALIVE_INTERVAL_MS + KEEPALIVE_TIMEOUT_MS), KeepaliveStep::Idle);
    assert_eq!(keepalive.tick(2 * KEEPALIVE_INTERVAL_MS), KeepaliveStep::SendPing);
}
