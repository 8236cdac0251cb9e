//! The agent's persistent attachment to the relay: how a disconnect is
//! classified, and how long to wait before coming back.
//!
//! The relay is untrusted, so nothing here interprets a payload. This module
//! only decides *whether* to stay connected and *when* to retry.

use vstd::prelude::*;
use std::time::Duration;
use tungstenite::http::Uri;
use crate::text::{decimal, decimal_string, join3, join2, starts_with, has_prefix};
use crate::relay::{DeviceToken, without_trailing_slashes, trim_trailing_slashes};
use crate::time::{duration_of_millis, millis, clock_subsec_nanos};

verus! {

/// Close code the relay sends when a newer socket for the same device replaced
/// this one. Benign: it is what a reconnect looks like from the old socket.
pub const CLOSE_SUPERSEDED: u16 = 4000;
/// The device was revoked; its token no longer authenticates.
pub const CLOSE_REVOKED: u16 = 4001;
/// This device kind may not use this endpoint: a configuration error.
pub const CLOSE_WRONG_ENDPOINT: u16 = 4003;

/// Why a link ended, and whether coming back makes sense.
#[derive(Debug, Clone, PartialEq, Eq)]
pub enum Disconnect {
    /// Retry after a backoff.
    Retryable(String),
    /// Do not retry: the credential or the configuration is wrong.
    Terminal(String),
}

impl Disconnect {
    /// Whether the link must not be retried.
    pub fn is_terminal(&self) -> (r: bool)
        ensures
            r == (self is Terminal),
    {
        match self {
            Disconnect::Terminal(_) => true,
            Disconnect::Retryable(_) => false,
        }
    }

    /// The human-readable reason carried by either variant.
    pub open spec fn reason_view(&self) -> Seq<char> {
        match self {
            Disconnect::Retryable(reason) => reason@,
            Disconnect::Terminal(reason) => reason@,
        }
    }

    /// The reason text, as the log line and the status display show it.
    pub fn reason(&self) -> (r: &str)
        ensures
            r@ == self.reason_view(),
    {
        match self {
            Disconnect::Retryable(reason) => reason.as_str(),
            Disconnect::Terminal(reason) => reason.as_str(),
        }
    }
}

/// Whether a relay close code ends the link for good.
pub open spec fn close_is_terminal(code: u16) -> bool {
    code == CLOSE_REVOKED || code == CLOSE_WRONG_ENDPOINT
}

/// The reason text [`classify_close`] attaches to `code`.
pub open spec fn close_reason(code: u16, reason: Seq<char>) -> Seq<char> {
    if code == CLOSE_REVOKED {
        "this device was revoked at the relay ("@ + reason + "); it must be paired again"@
    } else if code == CLOSE_WRONG_ENDPOINT {
        "the relay refused this endpoint for an agent device ("@ + reason + ")"@
    } else if code == CLOSE_SUPERSEDED {
        "a newer socket for this device replaced this one"@
    } else {
        "the relay closed the link with code "@ + decimal(code as nat)
    }
}

/// Classify a close code the relay sent.
///
/// Only a revoked device and a refused endpoint are terminal; every other code,
/// including ones this build does not recognise, is retried, because failing
/// closed would let a relay bug disconnect every agent for good.
pub fn classify_close(code: u16, reason: &str) -> (d: Disconnect)
    ensures
        (d is Terminal) <==> close_is_terminal(code),
        d.reason_view() == close_reason(code, reason@),
{
    if code == CLOSE_REVOKED {
        Disconnect::Terminal(join3("this device was revoked at the relay (", reason, "); it must be paired again"))
    } else if code == CLOSE_WRONG_ENDPOINT {
        Disconnect::Terminal(join3("the relay refused this endpoint for an agent device (", reason, ")"))
    } else if code == CLOSE_SUPERSEDED {
        Disconnect::Retryable(String::from_str("a newer socket for this device replaced this one"))
    } else {
        let digits = decimal_string(code as u64);
        Disconnect::Retryable(join2("the relay closed the link with code ", digits.as_str()))
    }
}

/// How often the agent proves the link is alive, in milliseconds.
pub const KEEPALIVE_INTERVAL_MS: u64 = 30_000;
/// How long a `pong` may be outstanding before the link counts as dead.
pub const KEEPALIVE_TIMEOUT_MS: u64 = 20_000;
/// Longest a socket read blocks before the loop checks its timers.
pub const READ_SLICE_MS: u64 = 500;
/// First retry delay of the relay supervisor.
pub const BACKOFF_BASE_MS: u64 = 1_000;
/// Ceiling on the relay supervisor's retry delay.
pub const BACKOFF_CAP_MS: u64 = 60_000;
/// How long a link must survive before it counts as healthy and resets the
/// backoff.
pub const HEALTHY_AFTER_MS: u64 = 30_000;

/// The read deadline a relay socket needs so that polling can return to its
/// timers.
pub fn read_slice() -> (d: Duration)
    ensures
        d == duration_of_millis(READ_SLICE_MS),
{
    millis(READ_SLICE_MS)
}

/// `2^e`.
pub open spec fn pow2(e: nat) -> nat
    decreases e,
{
    if e == 0 { 1 } else { 2 * pow2((e - 1) as nat) }
}

/// Every power of two is at least one.
pub proof fn lemma_pow2_positive(e: nat)
    ensures
        pow2(e) >= 1,
    decreases e,
{
    if e > 0 {
        lemma_pow2_positive((e - 1) as nat);
    }
}

/// The un-jittered delay for retry number `attempt`: the base doubled once
/// per earlier attempt (at most sixteen times), capped.
pub open spec fn scaled_delay(base_ms: u64, cap_ms: u64, attempt: u32) -> nat {
    let e = if attempt > 16 { 16 } else { attempt as nat };
    if base_ms * pow2(e) > cap_ms { cap_ms as nat } else { (base_ms * pow2(e)) as nat }
}

/// The delay for a scaled delay `scaled` and clock noise `nanos`: within a
/// quarter of `scaled` either side, and never below one millisecond.
pub open spec fn jittered(scaled: nat, nanos: u32) -> nat {
    let spread = scaled / 2;
    let offset = if spread == 0 { 0 } else { nanos as nat % spread };
    let ms = (scaled - spread / 2) + offset;
    if ms < 1 { 1 } else if ms > u64::MAX { u64::MAX as nat } else { ms as nat }
}

/// Whether `ms` is a delay [`jittered`] can give for `scaled`.
pub open spec fn within_jitter(scaled: nat, ms: nat) -> bool {
    let spread = scaled / 2;
    let low = scaled - spread / 2;
    &&& ms >= 1
    &&& if spread == 0 { ms == if scaled < 1 { 1 } else { scaled } } else { low <= ms < low + spread }
}

/// The jittered delay: `scaled` less a quarter, plus up to half of it drawn
/// from the clock's sub-second noise.
pub fn jitter_delay_ms(scaled: u64, nanos: u32) -> (ms: u64)
    ensures
        ms == jittered(scaled as nat, nanos),
        within_jitter(scaled as nat, ms as nat),
{
    let spread = scaled / 2;
    let offset: u64 = if spread == 0 { 0 } else { (nanos as u64) % spread };
    let ms = (scaled - spread / 2).saturating_add(offset);
    if ms < 1 { 1 } else { ms }
}

/// Doubling a power of two: `pow2(e + 1) == 2 * pow2(e)`, and powers grow.
proof fn lemma_pow2_monotone(a: nat, b: nat)
    requires
        a <= b,
    ensures
        pow2(a) <= pow2(b),
    decreases b - a,
{
    if a < b {
        lemma_pow2_monotone(a, (b - 1) as nat);
        lemma_pow2_positive((b - 1) as nat);
    }
}

/// The retry delays grow and are capped: the un-jittered delay never shrinks
/// from one attempt to the next and never exceeds the cap, and a jittered
/// delay is at most a quarter above it (and at least one millisecond).
pub proof fn backoff_grows_and_is_capped(base_ms: u64, cap_ms: u64, attempt: u32, later: u32, ms: nat)
    requires
        attempt <= later,
        within_jitter(scaled_delay(base_ms, cap_ms, attempt), ms),
    ensures
        scaled_delay(base_ms, cap_ms, attempt) <= scaled_delay(base_ms, cap_ms, later),
        scaled_delay(base_ms, cap_ms, later) <= cap_ms,
        1 <= ms <= cap_ms + cap_ms / 4 + 1,
{
    let e1: nat = if attempt > 16 { 16 } else { attempt as nat };
    let e2: nat = if later > 16 { 16 } else { later as nat };
    lemma_pow2_monotone(e1, e2);
    assert(base_ms * pow2(e1) <= base_ms * pow2(e2)) by (nonlinear_arith)
        requires pow2(e1) <= pow2(e2);
    let scaled = scaled_delay(base_ms, cap_ms, attempt);
    assert(scaled <= cap_ms);
}

/// A backoff that was reset starts again from the base delay (capped): its
/// next delay is jittered around `min(base, cap)`.
pub proof fn reset_restarts_from_the_base(base_ms: u64, cap_ms: u64)
    ensures
        scaled_delay(base_ms, cap_ms, 0) == if base_ms > cap_ms { cap_ms as nat } else { base_ms as nat },
{
    assert(pow2(0) == 1);
    assert(base_ms * pow2(0) == base_ms) by (nonlinear_arith) requires pow2(0) == 1;
}

/// Exponential backoff with jitter, reset by a connection that stays up.
///
/// Jitter keeps a fleet of agents from retrying in lockstep after a relay
/// restart. It is drawn from the clock rather than a cryptographic source:
/// nothing here is a secret.
#[derive(Debug, Clone)]
pub struct Backoff {
    base_ms: u64,
    cap_ms: u64,
    attempt: u32,
}

impl Backoff {
    /// The base delay.
    pub closed spec fn spec_base_ms(&self) -> u64 { self.base_ms }
    /// The ceiling before jitter.
    pub closed spec fn spec_cap_ms(&self) -> u64 { self.cap_ms }
    /// How many delays have been handed out since the last reset.
    pub closed spec fn spec_attempts(&self) -> u32 { self.attempt }

    /// A backoff starting at `base_ms` and capped at `cap_ms`, both in
    /// milliseconds.
    pub fn new(base_ms: u64, cap_ms: u64) -> (b: Backoff)
        ensures
            b.spec_base_ms() == base_ms,
            b.spec_cap_ms() == cap_ms,
            b.spec_attempts() == 0,
    {
        Backoff { base_ms, cap_ms, attempt: 0 }
    }

    /// The next delay in milliseconds, given the clock noise `nanos`; then
    /// advance.
    pub fn next_delay_ms_with(&mut self, nanos: u32) -> (ms: u64)
        ensures
            ms == jittered(scaled_delay(old(self).spec_base_ms(), old(self).spec_cap_ms(), old(self).spec_attempts()), nanos),
            within_jitter(scaled_delay(old(self).spec_base_ms(), old(self).spec_cap_ms(), old(self).spec_attempts()), ms as nat),
            final(self).spec_base_ms() == old(self).spec_base_ms(),
            final(self).spec_cap_ms() == old(self).spec_cap_ms(),
            final(self).spec_attempts() == if old(self).spec_attempts() == u32::MAX { u32::MAX } else { (old(self).spec_attempts() + 1) as u32 },
    {
        let exponent: u32 = if self.attempt > 16 { 16 } else { self.attempt };
        let mut scaled: u64 = if self.base_ms > self.cap_ms { self.cap_ms } else { self.base_ms };
        let mut k: u32 = 0;
        assert(pow2(0) == 1);
        while k < exponent
            invariant
                k <= exponent <= 16,
                scaled as int == if self.base_ms * pow2(k as nat) > self.cap_ms { self.cap_ms as int } else { self.base_ms * pow2(k as nat) },
            decreases exponent - k,
        {
            let ghost x = self.base_ms * pow2(k as nat);
            let ghost cap = self.cap_ms as int;
            proof {
                lemma_pow2_positive(k as nat);
                assert(pow2((k + 1) as nat) == 2 * pow2(k as nat));
                assert(self.base_ms * pow2((k + 1) as nat) == 2 * x) by (nonlinear_arith)
                    requires pow2((k + 1) as nat) == 2 * pow2(k as nat), x == self.base_ms * pow2(k as nat);
                assert(x >= 0) by (nonlinear_arith) requires x == self.base_ms * pow2(k as nat), pow2(k as nat) >= 0;
            }
            if scaled > self.cap_ms / 2 {
                scaled = self.cap_ms;
            } else {
                scaled = scaled * 2;
            }
            k = k + 1;
        }
        self.attempt = if self.attempt == u32::MAX { u32::MAX } else { self.attempt + 1 };
        jitter_delay_ms(scaled, nanos)
    }

    /// The next delay, then advance: the un-jittered delay doubles per
    /// attempt up to the cap, and the clock's sub-second noise moves it by up
    /// to a quarter either way.
    pub fn next_delay(&mut self) -> (d: Duration)
        ensures
            exists|ms: u64| d == duration_of_millis(ms)
                && #[trigger] within_jitter(scaled_delay(old(self).spec_base_ms(), old(self).spec_cap_ms(), old(self).spec_attempts()), ms as nat),
            final(self).spec_base_ms() == old(self).spec_base_ms(),
            final(self).spec_cap_ms() == old(self).spec_cap_ms(),
            final(self).spec_attempts() == if old(self).spec_attempts() == u32::MAX { u32::MAX } else { (old(self).spec_attempts() + 1) as u32 },
    {
        let nanos = clock_subsec_nanos();
        let ms = self.next_delay_ms_with(nanos);
        millis(ms)
    }

    /// Called once a link has proved itself, so the next outage starts fast
    /// again instead of inheriting the last one's delay.
    pub fn reset(&mut self)
        ensures
            final(self).spec_attempts() == 0,
            final(self).spec_base_ms() == old(self).spec_base_ms(),
            final(self).spec_cap_ms() == old(self).spec_cap_ms(),
    {
        self.attempt = 0;
    }

    /// How many delays have been handed out since the last reset.
    pub fn attempts(&self) -> (n: u32)
        ensures
            n == self.spec_attempts(),
    {
        self.attempt
    }
}

/// Why no attach request could be built for a relay address.
#[derive(Debug, Clone, Copy, PartialEq, Eq)]
pub enum EndpointError {
    /// The address does not start with `http://`, `https://`, `ws://` or
    /// `wss://`.
    NoScheme,
    /// The WebSocket address it maps to is not a valid URI.
    InvalidUri,
}

/// The WebSocket address of the agent attach route for relay address `base`:
/// trailing slashes dropped, `https` upgraded to `wss` and `http` to `ws`
/// (`ws` and `wss` kept as they are), then `/v1/agent` appended. `None` when
/// the address carries none of the four schemes.
pub open spec fn agent_endpoint_of(base: Seq<char>) -> Option<Seq<char>> {
    let t = without_trailing_slashes(base);
    if starts_with(t, "https://"@) {
        Some("wss://"@ + t.skip(8) + "/v1/agent"@)
    } else if starts_with(t, "http://"@) {
        Some("ws://"@ + t.skip(7) + "/v1/agent"@)
    } else if starts_with(t, "wss://"@) || starts_with(t, "ws://"@) {
        Some(t + "/v1/agent"@)
    } else {
        None
    }
}

/// The WebSocket address of the agent attach route for relay address
/// `base_url`.
pub fn agent_endpoint(base_url: &str) -> (r: Option<String>)
    ensures
        match r {
            Some(e) => agent_endpoint_of(base_url@) == Some(e@),
            None => agent_endpoint_of(base_url@) is None,
        },
{
    proof {
        reveal_strlit("https://");
        reveal_strlit("http://");
        reveal_strlit("wss://");
        reveal_strlit("ws://");
    }
    let t = trim_trailing_slashes(base_url);
    let n = t.unicode_len();
    if has_prefix(t, "https://") {
        let rest = t.substring_char(8, n);
        assert(rest@ =~= t@.skip(8));
        Some(join3("wss://", rest, "/v1/agent"))
    } else if has_prefix(t, "http://") {
        let rest = t.substring_char(7, n);
        assert(rest@ =~= t@.skip(7));
        Some(join3("ws://", rest, "/v1/agent"))
    } else if has_prefix(t, "wss://") || has_prefix(t, "ws://") {
        Some(join2(t, "/v1/agent"))
    } else {
        None
    }
}

/// Whether `http::Uri` parses `text`.
pub uninterp spec fn uri_accepts(text: Seq<char>) -> bool;

/// The URI type of the `http` crate, as tungstenite re-exports it.
#[verifier::external_type_specification]
#[verifier::external_body]
pub struct ExUri(Uri);

/// `<Uri as FromStr>::from_str`: whether it succeeds depends on the text
/// alone; the parsed value is opaque here.
#[verifier::external_body]
fn parse_uri(text: &str) -> (r: Option<Uri>)
    ensures
        r is Some <==> uri_accepts(text@),
{
    text.parse::<Uri>().ok()
}

/// The WebSocket upgrade the agent attaches with: the URI to request, which
/// `http::Uri` accepts, and the value of its `Authorization` header. The
/// connecting side hands both to tungstenite's request builder.
#[derive(Debug, Clone, PartialEq, Eq)]
pub struct AttachRequest {
    pub endpoint: String,
    pub authorization: String,
}

/// The attach request for relay address `base_url`: the endpoint of
/// [`agent_endpoint`], authenticated with `Authorization: Bearer <token>`.
///
/// The relay authenticates the HTTP upgrade itself; there is no query-string
/// or first-frame fallback, so the header is always set.
pub fn agent_request(base_url: &str, token: &DeviceToken) -> (r: Result<AttachRequest, EndpointError>)
    ensures
        agent_endpoint_of(base_url@) is None ==> r == Err::<AttachRequest, EndpointError>(EndpointError::NoScheme),
        agent_endpoint_of(base_url@) matches Some(e) ==> {
            &&& (r is Ok <==> uri_accepts(e))
            &&& (r is Err ==> r == Err::<AttachRequest, EndpointError>(EndpointError::InvalidUri))
            &&& (r matches Ok(req) ==> req.endpoint@ == e && req.authorization@ == "Bearer "@ + token@)
        },
{
    let endpoint = match agent_endpoint(base_url) {
        Some(e) => e,
        None => return Err(EndpointError::NoScheme),
    };
    match parse_uri(endpoint.as_str()) {
        Some(_) => {},
        None => return Err(EndpointError::InvalidUri),
    }
    Ok(AttachRequest { endpoint, authorization: token.header() })
}

/// What the keepalive asks of the link at a given moment.
#[derive(Debug, Clone, Copy, PartialEq, Eq)]
pub enum KeepaliveStep {
    /// Nothing is due.
    Idle,
    /// Send `{"t":"ping"}` now.
    SendPing,
    /// A ping went unanswered for [`KEEPALIVE_TIMEOUT_MS`]: the link is dead.
    Dead,
}

/// The relay has no heartbeat of its own, so the agent pings on an interval
/// and treats a missing `pong` as a dead link. Times are milliseconds on a
/// monotonic clock.
#[derive(Debug, Clone, Copy)]
pub struct Keepalive {
    pub last_ping_ms: u64,
    pub awaiting_pong_since_ms: Option<u64>,
}

impl Keepalive {
    /// A keepalive for a link that attached at `now_ms`: the first ping is due
    /// one interval later.
    pub fn new(now_ms: u64) -> (k: Keepalive)
        ensures
            k.last_ping_ms == now_ms,
            k.awaiting_pong_since_ms is None,
    {
        Keepalive { last_ping_ms: now_ms, awaiting_pong_since_ms: None }
    }

    /// Decide what is due at `now_ms`, and record a ping as sent when one is.
    ///
    /// While a pong is outstanding no second ping is sent; the link dies once
    /// that pong is [`KEEPALIVE_TIMEOUT_MS`] late. Otherwise a ping is due
    /// every [`KEEPALIVE_INTERVAL_MS`].
    pub fn tick(&mut self, now_ms: u64) -> (step: KeepaliveStep)
        ensures
            match old(self).awaiting_pong_since_ms {
                Some(since) => {
                    &&& step == (if now_ms >= since && now_ms - since >= KEEPALIVE_TIMEOUT_MS { KeepaliveStep::Dead } else { KeepaliveStep::Idle })
                    &&& *final(self) == *old(self)
                },
                None => if now_ms >= old(self).last_ping_ms && now_ms - old(self).last_ping_ms >= KEEPALIVE_INTERVAL_MS {
                    &&& step == KeepaliveStep::SendPing
                    &&& final(self).last_ping_ms == now_ms
                    &&& final(self).awaiting_pong_since_ms == Some(now_ms)
                } else {
                    &&& step == KeepaliveStep::Idle
                    &&& *final(self) == *old(self)
                },
            },
    {
        match self.awaiting_pong_since_ms {
            Some(since) => {
                if now_ms.saturating_sub(since) >= KEEPALIVE_TIMEOUT_MS {
                    KeepaliveStep::Dead
                } else {
                    KeepaliveStep::Idle
                }
            },
            None => {
                if now_ms.saturating_sub(self.last_ping_ms) >= KEEPALIVE_INTERVAL_MS {
                    self.last_ping_ms = now_ms;
                    self.awaiting_pong_since_ms = Some(now_ms);
                    KeepaliveStep::SendPing
                } else {
                    KeepaliveStep::Idle
                }
            },
        }
    }

    /// A `pong` arrived: nothing is outstanding any more.
    pub fn on_pong(&mut self)
        ensures
            final(self).awaiting_pong_since_ms is None,
            final(self).last_ping_ms == old(self).last_ping_ms,
    {
        self.awaiting_pong_since_ms = None;
    }
}

} // verus!
