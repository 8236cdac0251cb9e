//! The decisions of the steady-state protocol on an established Noise
//! session.
//!
//! The agent answers `hello`, `ping`, `pair.revoke`, `metrics.subscribe` and
//! `bye`. Everything else in the registry is reserved but unimplemented, and says so on the wire with
//! an `unsupported` error rather than being quietly ignored: an ignored request
//! is indistinguishable from a hung host. The service reads and decodes each
//! envelope and performs the reply; this module decides the reply.

use vstd::prelude::*;
use crate::revoke::{AppliedRevocation, ErrorCode, RevocationRefusal, refusal_code, refusal_wire_message};
use crate::text::{decimal, decimal_string, join2, join3};

pub use crate::metrics::now_ms;

verus! {

/// Management-plane messages are small; capping reassembly means a peer cannot
/// make the agent buffer megabytes before a single field has been validated.
pub const MAX_SESSION_MESSAGE_LEN: usize = 65536;

/// What the agent reports about itself in `hello.ok`.
#[derive(Debug, Clone)]
pub struct SessionConfig {
    pub device_id: u128,
    pub software_version: String,
    /// Machine name for the client's device list; `None` when the platform
    /// offers nothing, and the client falls back to its own label.
    pub display_name: Option<String>,
}

/// The machine name to report, from the platform's value for it: an empty
/// value counts as none.
pub fn display_name_from(value: Option<String>) -> (r: Option<String>)
    ensures
        match value {
            Some(v) => if v@.len() == 0 { r is None } else { r == Some(v) },
            None => r is None,
        },
{
    match value {
        Some(v) => if v.as_str().unicode_len() == 0 { None } else { Some(v) },
        None => None,
    }
}

/// How a served session ended. Every variant is an ordinary outcome.
#[derive(Debug, Clone, Copy, PartialEq, Eq)]
pub enum SessionEnd {
    /// Peer sent `bye`.
    PeerSaidBye,
    /// Peer closed the transport on a message boundary.
    PeerClosed,
    /// Peer sent a valid `pair.revoke`; its pin is gone and so is the session.
    Revoked,
}

/// Summary of a completed session, for the caller's log line.
#[derive(Debug, Clone)]
pub struct SessionReport {
    pub end: SessionEnd,
    pub peer_device_id: u128,
    pub pings_answered: u64,
}

/// A capability the agent can advertise in `hello.ok`, by its wire name.
#[derive(Debug, Clone, PartialEq, Eq)]
pub struct Capability {
    pub name: String,
}

/// The wire name of the metrics capability.
pub open spec fn metrics_capability_name() -> Seq<char> {
    "metrics"@
}

/// The capability set this build advertises: exactly what it serves, which is
/// the metrics feed. A capability the agent could not serve would be a
/// plausible-looking fiction, and a client gates its whole metrics view on
/// this list.
pub fn capabilities() -> (c: Vec<Capability>)
    ensures
        c@.len() == 1,
        c@[0].name@ == metrics_capability_name(),
{
    let mut c: Vec<Capability> = Vec::new();
    c.push(Capability { name: String::from_str("metrics") });
    proof {
        reveal_strlit("metrics");
    }
    c
}

/// The highest protocol version both sides speak, given each side's declared
/// range, or `None` when the ranges do not overlap.
pub open spec fn common_version(ours_min: u32, ours_max: u32, peer_min: u32, peer_max: u32) -> Option<u32> {
    let ceiling = if ours_max < peer_max { ours_max } else { peer_max };
    let floor = if ours_min > peer_min { ours_min } else { peer_min };
    if floor > ceiling { None } else { Some(ceiling) }
}

/// Negotiate on the two declared ranges, not on the version the peer used for
/// its first envelope: the peer may speak a version it did not open with.
pub fn negotiate(ours_min: u32, ours_max: u32, peer_min: u32, peer_max: u32) -> (r: Option<u32>)
    ensures
        r == common_version(ours_min, ours_max, peer_min, peer_max),
        r matches Some(v) ==> ours_min <= v <= ours_max && peer_min <= v <= peer_max,
{
    let ceiling = if ours_max < peer_max { ours_max } else { peer_max };
    let floor = if ours_min > peer_min { ours_min } else { peer_min };
    if floor > ceiling { None } else { Some(ceiling) }
}

/// The type of an envelope, as the registry names it.
#[derive(Debug, Clone, PartialEq, Eq)]
pub enum MessageType {
    Hello,
    Ping,
    PairRevoke,
    MetricsSubscribe,
    Bye,
    /// Any other registered type, by its wire name.
    Other(String),
}

/// What decoding an envelope's body against its type gave.
#[derive(Debug, Clone, PartialEq, Eq)]
pub enum BodyShape {
    /// A `hello` body declaring the peer's version range and device id.
    Hello { min_protocol_version: u32, protocol_version: u32, device_id: u128 },
    /// A `ping` body.
    Ping { seq: u64 },
    /// A `pair.revoke` body (its fields go to the revocation handler).
    PairRevoke,
    /// A `metrics.subscribe` body: how many seconds of stored history to send
    /// back, and whether to stream live ticks after it.
    MetricsSubscribe { backfill_seconds: u32, stream: bool },
    /// A `bye` body.
    Bye,
    /// A body of some other type.
    Other,
    /// The body does not match any schema.
    Undecodable,
}

/// An error reply: its class and its text.
#[derive(Debug, Clone, PartialEq, Eq)]
pub struct ErrorReply {
    pub code: ErrorCode,
    pub message: String,
}

/// What the opening `hello` settles.
#[derive(Debug, Clone, PartialEq, Eq)]
pub enum HelloOutcome {
    /// Answer with `hello.ok` at this protocol version; the peer is this
    /// device.
    Accept { peer_device_id: u128, version: u32 },
    /// Answer with this error, then drop the session.
    Refuse(ErrorReply),
}

/// The text of the refusal of a `hello` whose range does not meet ours.
pub open spec fn version_mismatch_text(peer_min: u32, peer_max: u32, ours_min: u32, ours_max: u32) -> Seq<char> {
    "peer speaks "@ + decimal(peer_min as nat) + "..="@ + decimal(peer_max as nat)
        + ", this build speaks "@ + decimal(ours_min as nat) + "..="@ + decimal(ours_max as nat)
}

/// What the opening `hello` settles.
pub open spec fn hello_outcome_of(t: MessageType, body: BodyShape, ours_min: u32, ours_max: u32) -> Result<(u128, u32), (ErrorCode, Seq<char>)> {
    if t != MessageType::Hello {
        Err((ErrorCode::BadRequest, "the first message on a session must be `hello`"@))
    } else {
        match body {
            BodyShape::Hello { min_protocol_version, protocol_version, device_id } =>
                match common_version(ours_min, ours_max, min_protocol_version, protocol_version) {
                    Some(v) => Ok((device_id, v)),
                    None => Err((ErrorCode::VersionMismatch,
                        version_mismatch_text(min_protocol_version, protocol_version, ours_min, ours_max))),
                },
            _ => Err((ErrorCode::BadRequest, "hello body did not match the schema"@)),
        }
    }
}

/// Judge the opening envelope of a session: it must be a well-formed `hello`
/// whose declared version range meets `ours_min..=ours_max`.
pub fn read_hello(t: &MessageType, body: &BodyShape, ours_min: u32, ours_max: u32) -> (o: HelloOutcome)
    ensures
        match hello_outcome_of(*t, *body, ours_min, ours_max) {
            Ok((device, v)) => o == HelloOutcome::Accept { peer_device_id: device, version: v },
            Err((code, text)) => o matches HelloOutcome::Refuse(e) && e.code == code && e.message@ == text,
        },
{
    match t {
        MessageType::Hello => {},
        _ => return HelloOutcome::Refuse(ErrorReply {
            code: ErrorCode::BadRequest,
            message: String::from_str("the first message on a session must be `hello`"),
        }),
    }
    match body {
        BodyShape::Hello { min_protocol_version, protocol_version, device_id } => {
            match negotiate(ours_min, ours_max, *min_protocol_version, *protocol_version) {
                Some(v) => HelloOutcome::Accept { peer_device_id: *device_id, version: v },
                None => {
                    let a = decimal_string(*min_protocol_version as u64);
                    let b = decimal_string(*protocol_version as u64);
                    let c = decimal_string(ours_min as u64);
                    let d = decimal_string(ours_max as u64);
                    let first = join3("peer speaks ", a.as_str(), "..=");
                    let second = join3(first.as_str(), b.as_str(), ", this build speaks ");
                    let third = join3(second.as_str(), c.as_str(), "..=");
                    let message = join2(third.as_str(), d.as_str());
                    HelloOutcome::Refuse(ErrorReply { code: ErrorCode::VersionMismatch, message })
                },
            }
        },
        _ => HelloOutcome::Refuse(ErrorReply {
            code: ErrorCode::BadRequest,
            message: String::from_str("hello body did not match the schema"),
        }),
    }
}

/// What the agent does with one envelope on an established session.
#[derive(Debug, Clone, PartialEq, Eq)]
pub enum Reply {
    /// Send this error, correlated to the envelope, and keep serving.
    Error(ErrorReply),
    /// Answer with a `pong` carrying `seq` and echoing the envelope's
    /// timestamp, and keep serving.
    Pong { seq: u64 },
    /// Hand the body to the revocation handler.
    Revoke,
    /// Answer with a `metrics.history` of the last `backfill_seconds`,
    /// correlated to the envelope and naming the envelope's id as its
    /// subscription; then, with `stream`, push a `metrics.tick` under that
    /// subscription for every live sample, and without it stop any stream
    /// this session had. Keep serving either way.
    Subscribe { backfill_seconds: u32, stream: bool },
    /// End the session.
    End(SessionEnd),
}

/// The reply to an envelope of type `t` whose body decoded as `body`, when
/// the envelope's own version check gave `version`.
pub open spec fn reply_of(version: Result<(), Seq<char>>, t: MessageType, body: BodyShape) -> Result<(ErrorCode, Seq<char>), Reply> {
    match version {
        Err(text) => Ok((ErrorCode::VersionMismatch, text)),
        Ok(_) => match t {
            MessageType::Ping => match body {
                BodyShape::Ping { seq } => Err(Reply::Pong { seq }),
                _ => Ok((ErrorCode::BadRequest, "ping body did not match the schema"@)),
            },
            MessageType::PairRevoke => match body {
                BodyShape::PairRevoke => Err(Reply::Revoke),
                _ => Ok((ErrorCode::BadRequest, "pair.revoke body did not match the schema"@)),
            },
            MessageType::MetricsSubscribe => match body {
                BodyShape::MetricsSubscribe { backfill_seconds, stream } => Err(Reply::Subscribe { backfill_seconds, stream }),
                _ => Ok((ErrorCode::BadRequest, "metrics.subscribe body did not match the schema"@)),
            },
            MessageType::Bye => Err(Reply::End(SessionEnd::PeerSaidBye)),
            MessageType::Hello => Ok((ErrorCode::Unsupported, "`hello` is reserved but not implemented in this build"@)),
            MessageType::Other(name) => Ok((ErrorCode::Unsupported, "`"@ + name@ + "` is reserved but not implemented in this build"@)),
        },
    }
}

/// Decide the reply to one envelope (`Ok` of [`reply_of`] is an error reply).
///
/// A `bye` ends the session even when its body does not parse: the peer has
/// said it is leaving. A type the registry reserves but this build does not
/// implement is answered `unsupported`, never ignored.
pub fn dispatch(version: Result<(), String>, t: &MessageType, body: &BodyShape) -> (r: Reply)
    ensures
        match reply_of(match version { Ok(_) => Ok(()), Err(s) => Err(s@) }, *t, *body) {
            Ok((code, text)) => r matches Reply::Error(e) && e.code == code && e.message@ == text,
            Err(reply) => r == reply,
        },
{
    match version {
        Err(text) => return Reply::Error(ErrorReply { code: ErrorCode::VersionMismatch, message: text }),
        Ok(_) => {},
    }
    match t {
        MessageType::Ping => match body {
            BodyShape::Ping { seq } => Reply::Pong { seq: *seq },
            _ => Reply::Error(ErrorReply {
                code: ErrorCode::BadRequest,
                message: String::from_str("ping body did not match the schema"),
            }),
        },
        MessageType::PairRevoke => match body {
            BodyShape::PairRevoke => Reply::Revoke,
            _ => Reply::Error(ErrorReply {
                code: ErrorCode::BadRequest,
                message: String::from_str("pair.revoke body did not match the schema"),
            }),
        },
        MessageType::MetricsSubscribe => match body {
            BodyShape::MetricsSubscribe { backfill_seconds, stream } => Reply::Subscribe {
                backfill_seconds: *backfill_seconds,
                stream: *stream,
            },
            _ => Reply::Error(ErrorReply {
                code: ErrorCode::BadRequest,
                message: String::from_str("metrics.subscribe body did not match the schema"),
            }),
        },
        MessageType::Bye => Reply::End(SessionEnd::PeerSaidBye),
        MessageType::Hello => Reply::Error(ErrorReply {
            code: ErrorCode::Unsupported,
            message: String::from_str("`hello` is reserved but not implemented in this build"),
        }),
        MessageType::Other(name) => Reply::Error(ErrorReply {
            code: ErrorCode::Unsupported,
            message: join3("`", name.as_str(), "` is reserved but not implemented in this build"),
        }),
    }
}

/// The subscription a session streams ticks under after it performed reply `r`
/// to the envelope `id`, having streamed under `current` before: a subscribe
/// with `stream` opens a stream named by its own id (replacing any earlier
/// one), a subscribe without it stops the stream, an ended session streams
/// nothing, and every other reply leaves the stream as it was.
pub open spec fn stream_after(current: Option<u128>, id: u128, r: Reply) -> Option<u128> {
    match r {
        Reply::Subscribe { stream, .. } => if stream { Some(id) } else { None },
        Reply::End(_) => None,
        _ => current,
    }
}

/// Decide which subscription, if any, the session streams under after
/// performing `reply` to the envelope `id`.
pub fn next_stream(current: Option<u128>, id: u128, reply: &Reply) -> (n: Option<u128>)
    ensures
        n == stream_after(current, id, *reply),
{
    match reply {
        Reply::Subscribe { stream, .. } => if *stream { Some(id) } else { None },
        Reply::End(_) => None,
        _ => current,
    }
}

/// A well-formed `metrics.subscribe` is always answered (with the history,
/// never an error), and afterwards the session streams exactly when the
/// request asked it to, under the request's own id, whatever it streamed
/// before: so an unsubscribe stops any stream.
pub proof fn a_subscribe_is_answered_and_sets_the_stream(current: Option<u128>, id: u128, backfill_seconds: u32, stream: bool)
    ensures
        reply_of(Ok(()), MessageType::MetricsSubscribe, BodyShape::MetricsSubscribe { backfill_seconds, stream })
            == Err::<(ErrorCode, Seq<char>), Reply>(Reply::Subscribe { backfill_seconds, stream }),
        stream_after(current, id, Reply::Subscribe { backfill_seconds, stream })
            == (if stream { Some(id) } else { None::<u128> }),
{
}

/// A well-formed `pair.revoke` on an established session always goes to the
/// revocation handler; it is never refused as unsupported, so a controller
/// can always revoke its own pairing. A malformed one is a bad request, and
/// the session goes on.
pub proof fn a_pair_revoke_goes_to_the_revocation_handler(body: BodyShape)
    ensures
        reply_of(Ok(()), MessageType::PairRevoke, BodyShape::PairRevoke) == Err::<(ErrorCode, Seq<char>), Reply>(Reply::Revoke),
        reply_of(Ok(()), MessageType::PairRevoke, body) is Err <==> body == BodyShape::PairRevoke,
        reply_of(Ok(()), MessageType::PairRevoke, body) matches Ok((code, _)) ==> code == ErrorCode::BadRequest,
{
}

/// Of the requests an established session serves, none is answered
/// `unsupported`: only `hello` (already settled) and the types the registry
/// reserves for later are. Whatever the body, `bye` ends the session, and a
/// failed version check is reported with its own text for every type.
pub proof fn only_reserved_types_are_unsupported(t: MessageType, body: BodyShape, text: Seq<char>)
    ensures
        reply_of(Ok(()), t, body) matches Ok((code, _)) && code == ErrorCode::Unsupported
            <==> (t == MessageType::Hello || t is Other),
        reply_of(Ok(()), MessageType::Bye, body) == Err::<(ErrorCode, Seq<char>), Reply>(Reply::End(SessionEnd::PeerSaidBye)),
        reply_of(Err(text), t, body) == Ok::<(ErrorCode, Seq<char>), Reply>((ErrorCode::VersionMismatch, text)),
{
}

/// Answering a ping leaves the stream as it was: a live feed survives the
/// ordinary traffic of the session.
pub proof fn a_ping_leaves_the_stream_alone(current: Option<u128>, id: u128, seq: u64)
    ensures
        reply_of(Ok(()), MessageType::Ping, BodyShape::Ping { seq }) == Err::<(ErrorCode, Seq<char>), Reply>(Reply::Pong { seq }),
        stream_after(current, id, Reply::Pong { seq }) == current,
{
}

/// The detail of the `bye` that acknowledges an accepted revocation.
pub open spec fn revoked_bye_detail() -> Seq<char> {
    "pair.revoke accepted; this device is no longer paired"@
}

/// What follows a `pair.revoke`, given what the revocation handler made of
/// it.
///
/// A refusal leaves the session running: dropping the connection would let an
/// on-path attacker turn one forged or replayed message into a denial of
/// service against a peer that is still legitimately paired. An accepted one
/// ends the session after a courtesy `bye` with [`revoked_bye_detail`].
pub fn handle_revoke(outcome: &Result<AppliedRevocation, RevocationRefusal>) -> (r: Reply)
    ensures
        match outcome {
            Err(refusal) => r matches Reply::Error(e) && e.code == refusal_code(*refusal)
                && e.message@ == refusal_wire_message(*refusal),
            Ok(_) => r == Reply::End(SessionEnd::Revoked),
        },
{
    match outcome {
        Err(refusal) => Reply::Error(ErrorReply { code: refusal.code(), message: refusal.wire_message() }),
        Ok(_) => Reply::End(SessionEnd::Revoked),
    }
}

/// The `bye` detail text that acknowledges an accepted revocation.
pub fn revoked_bye() -> (s: String)
    ensures
        s@ == revoked_bye_detail(),
{
    String::from_str("pair.revoke accepted; this device is no longer paired")
}

/// Count one answered ping, saturating.
pub fn count_ping(pings_answered: u64) -> (n: u64)
    ensures
        n == if pings_answered == u64::MAX { u64::MAX } else { (pings_answered + 1) as u64 },
{
    pings_answered.saturating_add(1)
}

} // verus!
