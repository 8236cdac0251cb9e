use osprey_svc::revoke::{AppliedRevocation, ErrorCode, RevocationRefusal, RevocationRejection};
use osprey_svc::session::{
    capabilities, count_ping, dispatch, display_name_from, handle_revoke, negotiate, next_stream, read_hello,
    revoked_bye, BodyShape, ErrorReply, HelloOutcome, MessageType, Reply, SessionEnd,
};

#[test]
fn the_agent_advertises_the_metrics_capability() {
    let advertised = capabilities();
    assert_eq!(advertised.len(), 1);
    assert_eq!(advertised[0].name, "metrics");
}

#[test]
fn versions_overlap_on_the_declared_ranges() {
    assert_eq!(negotiate(1, 3, 2, 5), Some(3));
    assert_eq!(negotiate(1, 3, 0, 1), Some(1));
    assert_eq!(negotiate(2, 3, 4, 5), None);
}

#[test]
fn a_session_must_open_with_hello() {
    let outcome = read_hello(&MessageType::Ping, &BodyShape::Ping { seq: 1 }, 1, 1);
    assert_eq!(
        outcome,
        HelloOutcome::Refuse(ErrorReply {
            code: ErrorCode::BadRequest,
            message: "the first message on a session must be `hello`".to_owned()
        })
    );
    let bad = read_hello(&MessageType::Hello, &BodyShape::Undecodable, 1, 1);
    assert!(matches!(bad, HelloOutcome::Refuse(ErrorReply { code: ErrorCode::BadRequest, .. })));
}

#[test]
fn a_hello_without_a_common_version_is_refused() {
    let hello = BodyShape::Hello { min_protocol_version: 4, protocol_version: 6, device_id: 9 };
    assert_eq!(
        read_hello(&MessageType::Hello, &hello, 1, 2),
        HelloOutcome::Refuse(ErrorReply {
            code: ErrorCode::VersionMismatch,
            message: "peer speaks 4..=6, this build speaks 1..=2".to_owned()
        })
    );
    let ok = BodyShape::Hello { min_protocol_version: 1, protocol_version: 6, device_id: 9 };
    assert_eq!(read_hello(&MessageType::Hello, &ok, 1, 2), HelloOutcome::Accept { peer_device_id: 9, version: 2 });
}

#[test]
fn a_ping_is_answered_with_its_sequence_number() {
    assert_eq!(dispatch(Ok(()), &MessageType::Ping, &BodyShape::Ping { seq: 7 }), Reply::Pong { seq: 7 });
    assert!(matches!(
        dispatch(Ok(()), &MessageType::Ping, &BodyShape::Undecodable),
        Reply::Error(ErrorReply { code: ErrorCode::BadRequest, .. })
    ));
    assert_eq!(count_ping(1), 2);
}

#[test]
fn a_reserved_type_is_answered_unsupported_never_ignored() {
    assert_eq!(
        dispatch(Ok(()), &MessageType::Other("file.list".to_owned()), &BodyShape::Other),
        Reply::Error(ErrorReply {
            code: ErrorCode::Unsupported,
            message: "`file.list` is reserved but not implemented in this build".to_owned()
        })
    );
}

#[test]
fn a_bye_ends_the_session_even_with_a_bad_body() {
    assert_eq!(dispatch(Ok(()), &MessageType::Bye, &BodyShape::Undecodable), Reply::End(SessionEnd::PeerSaidBye));
}

#[test]
fn a_version_mismatch_is_reported_and_the_session_continues() {
    assert_eq!(
        dispatch(Err("v9 is not spoken here".to_owned()), &MessageType::Ping, &BodyShape::Ping { seq: 1 }),
        Reply::Error(ErrorReply { code: ErrorCode::VersionMismatch, message: "v9 is not spoken here".to_owned() })
    );
}

#[test]
fn a_refused_revocation_keeps_the_session() {
    let refused: Result<AppliedRevocation, RevocationRefusal> =
        Err(RevocationRefusal::Rejected(RevocationRejection::ReplayedNonce));
    assert_eq!(
        handle_revoke(&refused),
        Reply::Error(ErrorReply {
            code: ErrorCode::Conflict,
            message: "pair.revoke refused: the nonce was already used".to_owned()
        })
    );
    let applied: Result<AppliedRevocation, RevocationRefusal> =
        Ok(AppliedRevocation { fingerprint: "aa".to_owned(), removed: Vec::new() });
    assert_eq!(handle_revoke(&applied), Reply::End(SessionEnd::Revoked));
    assert_eq!(revoked_bye(), "pair.revoke accepted; this device is no longer paired");
}

#[test]
fn an_empty_machine_name_is_no_name() {
    assert_eq!(display_name_from(Some(String::new())), None);
    assert_eq!(display_name_from(Some("HOST".to_owned())), Some("HOST".to_owned()));
    assert_eq!(display_name_from(None), None);
}

#[test]
fn a_subscribe_is_answered_then_streams_and_an_unsubscribe_stops_it() {
    let subscribe = BodyShape::MetricsSubscribe { backfill_seconds: 3_600, stream: true };
    let reply = dispatch(Ok(()), &MessageType::MetricsSubscribe, &subscribe);
    assert_eq!(reply, Reply::Subscribe { backfill_seconds: 3_600, stream: true });
    let streaming = next_stream(None, 41, &reply);
    assert_eq!(streaming, Some(41));
    // Ordinary traffic keeps the feed running.
    assert_eq!(next_stream(streaming, 42, &Reply::Pong { seq: 1 }), Some(41));
    let stop = BodyShape::MetricsSubscribe { backfill_seconds: 0, stream: false };
    let reply = dispatch(Ok(()), &MessageType::MetricsSubscribe, &stop);
    assert_eq!(reply, Reply::Subscribe { backfill_seconds: 0, stream: false });
    assert_eq!(next_stream(streaming, 43, &reply), None);
    assert_eq!(next_stream(streaming, 44, &Reply::End(SessionEnd::PeerSaidBye)), None);
}

#[test]
fn a_malformed_subscribe_is_a_bad_request() {
    assert_eq!(
        dispatch(Ok(()), &MessageType::MetricsSubscribe, &BodyShape::Undecodable),
        Reply::Error(ErrorReply {
            code: ErrorCode::BadRequest,
            message: "metrics.subscribe body did not match the schema".to_owned()
        })
    );
}
