//! The decisions inside the `pair`, `run` and `unpair` subcommands.
//!
//! Each subcommand is a sequence of I/O steps (the keystore, the relay, the
//! listener, the terminal) around a few choices; the choices are made here.

use vstd::prelude::*;
use crate::discovery::{uuid_string, uuid_text};
use crate::lan::DEFAULT_LAN_PORT;
use crate::relay::{DeviceToken, RelayClient, RelayTarget, RelayUrlError, relay_url_ok, without_trailing_slashes};
use crate::state::{PairedPeer, PinnedPeer, RelayEnrolment, trim_text, trimmed, same_key};

verus! {

/// Seconds a pairing QR stays valid unless the operator says otherwise.
pub const DEFAULT_PAIRING_TTL_SECS: u64 = 120;

/// What `pair` was asked to do.
#[derive(Debug, Clone)]
pub struct PairOptions {
    /// Relay base url; falls back to the one stored at enrolment.
    pub relay_url: Option<String>,
    /// Deploy-time enrolment secret, required only on first contact with a
    /// relay.
    pub enrollment_secret: Option<String>,
    /// Pair without a relay at all: the QR carries no relay url, and the phone
    /// must reach the host over the LAN.
    pub lan_only: bool,
    pub port: u16,
    pub ttl_secs: u64,
}

impl PairOptions {
    /// The defaults: a relay if one is configured, the default LAN port, the
    /// default pairing window.
    pub fn default() -> (o: PairOptions)
        ensures
            o.relay_url is None,
            o.enrollment_secret is None,
            !o.lan_only,
            o.port == DEFAULT_LAN_PORT,
            o.ttl_secs == DEFAULT_PAIRING_TTL_SECS,
    {
        PairOptions { relay_url: None, enrollment_secret: None, lan_only: false, port: DEFAULT_LAN_PORT, ttl_secs: DEFAULT_PAIRING_TTL_SECS }
    }
}

/// What `run` was asked to do.
#[derive(Debug, Clone, Copy, PartialEq, Eq)]
pub struct RunOptions {
    pub port: u16,
    /// Publish `_osprey._tcp` on the LAN while listening. Off by default here
    /// (in-process callers are tests that must not multicast) and on by
    /// default on the command line.
    pub advertise_mdns: bool,
    /// Refuse to start when nothing is paired: true from the console, false
    /// for the service, which is installed before anyone pairs.
    pub require_paired_controller: bool,
}

impl RunOptions {
    /// The defaults for an in-process caller.
    pub fn default() -> (o: RunOptions)
        ensures
            o == (RunOptions { port: DEFAULT_LAN_PORT, advertise_mdns: false, require_paired_controller: true }),
    {
        RunOptions { port: DEFAULT_LAN_PORT, advertise_mdns: false, require_paired_controller: true }
    }
}

/// Whether `run` may start with `pinned` controllers pinned. An agent with no
/// pins is useless rather than unsafe — the handshake refuses every peer that
/// is not pinned — so the service listens anyway; the console refuses.
pub fn may_start(pinned: usize, options: &RunOptions) -> (b: bool)
    ensures
        b == (pinned > 0 || !options.require_paired_controller),
{
    pinned > 0 || !options.require_paired_controller
}

/// What the relay token lookup gave.
#[derive(Clone)]
pub enum TokenRead {
    /// The sealed token.
    Found(DeviceToken),
    /// Nothing is sealed.
    Missing,
    /// The keystore could not be read.
    Unreadable,
}

/// Where this agent should attach, if it has enrolled at all: its enrolment's
/// relay with its sealed token. An enrolment whose token is missing or
/// unreadable gives no target (the service reports the inconsistency rather
/// than quietly treating it as LAN-only).
pub fn relay_target(relay: Option<&RelayEnrolment>, token: TokenRead) -> (r: Option<RelayTarget>)
    ensures
        match (relay, token) {
            (Some(e), TokenRead::Found(t)) => r matches Some(x) && x.base_url@ == e.base_url@ && x.token@ == t@,
            _ => r is None,
        },
{
    match relay {
        None => None,
        Some(e) => match token {
            TokenRead::Found(t) => Some(RelayTarget { base_url: e.base_url.clone(), token: t }),
            _ => None,
        },
    }
}

/// Whether two pins are the same keys and fingerprint.
pub open spec fn same_pin(a: PinnedPeer, b: PinnedPeer) -> bool {
    &&& a.identity_pub@ == b.identity_pub@
    &&& a.noise_static_pub@ == b.noise_static_pub@
    &&& a.fingerprint@ == b.fingerprint@
}

/// Whether the peer a handshake admitted is still pinned in the store as
/// re-read after the session was registered. A peer unpaired during its
/// handshake is refused here.
pub fn still_pinned(current: &[PairedPeer], peer: &PinnedPeer) -> (b: bool)
    ensures
        b == exists|i: int| 0 <= i < current@.len() && #[trigger] same_pin(current@[i].pinned, *peer),
{
    let mut i: usize = 0;
    while i < current.len()
        invariant
            i <= current@.len(),
            forall|k: int| 0 <= k < i ==> !#[trigger] same_pin(current@[k].pinned, *peer),
        decreases current@.len() - i,
    {
        let p = &current[i].pinned;
        if same_key(&p.identity_pub, &peer.identity_pub) && same_key(&p.noise_static_pub, &peer.noise_static_pub)
            && string_eq(p.fingerprint.as_str(), peer.fingerprint.as_str()) {
            assert(same_pin(current@[i as int].pinned, *peer));
            return true;
        }
        i = i + 1;
    }
    false
}

/// Why `pair` could not settle its relay credentials.
#[derive(Debug, Clone, PartialEq, Eq)]
pub enum EnrolError {
    /// Neither `--relay-url` nor a stored enrolment, and not `--lan-only`.
    NoRelayConfigured,
    /// The relay address is not an HTTP url.
    BadRelayUrl(RelayUrlError),
    /// Not enrolled with that relay, and no enrolment secret was supplied.
    NeedsEnrollmentSecret,
}

/// The relay `pair` should use: none with `--lan-only`; otherwise the one
/// given on the command line, else the stored one.
pub fn choose_relay(lan_only: bool, relay_url: &Option<String>, stored: Option<&RelayEnrolment>)
    -> (r: Result<Option<RelayClient>, EnrolError>)
    ensures
        lan_only ==> r matches Ok(None),
        !lan_only ==> match (relay_url, stored) {
            (None, None) => r == Err::<Option<RelayClient>, EnrolError>(EnrolError::NoRelayConfigured),
            _ => {
                let url = match relay_url { Some(u) => u@, None => stored.unwrap().base_url@ };
                &&& relay_url_ok(url) ==> (r matches Ok(Some(c)) && c.spec_base_url() == without_trailing_slashes(url))
                &&& !relay_url_ok(url) ==> r == Err::<Option<RelayClient>, EnrolError>(EnrolError::BadRelayUrl(RelayUrlError::NotHttp))
            },
        },
{
    if lan_only {
        return Ok(None);
    }
    let url: &str = match relay_url {
        Some(u) => u.as_str(),
        None => match stored {
            Some(e) => e.base_url.as_str(),
            None => return Err(EnrolError::NoRelayConfigured),
        },
    };
    match RelayClient::new(url) {
        Ok(c) => Ok(Some(c)),
        Err(e) => Err(EnrolError::BadRelayUrl(e)),
    }
}

/// Whether the stored enrolment is for the relay `client` talks to. A
/// different relay is a different tenant namespace, so its token is useless
/// there.
pub fn enrolled_with(stored: Option<&RelayEnrolment>, client: &RelayClient) -> (b: bool)
    ensures
        b == match stored { Some(e) => e.base_url@ == client.spec_base_url(), None => false },
{
    match stored {
        Some(e) => string_eq(e.base_url.as_str(), client.base_url()),
        None => false,
    }
}

fn string_eq(a: &str, b: &str) -> (r: bool)
    ensures
        r == (a@ == b@),
{
    let n = a.unicode_len();
    if n != b.unicode_len() {
        return false;
    }
    let mut i: usize = 0;
    while i < n
        invariant
            n == a@.len() == b@.len(),
            i <= n,
            forall|k: int| 0 <= k < i ==> a@[k] == b@[k],
        decreases n - i,
    {
        if a.get_char(i) != b.get_char(i) {
            return false;
        }
        i = i + 1;
    }
    assert(a@ =~= b@);
    true
}

/// The enrolment secret: the one on the command line, else the one in the
/// environment; refused when neither is there.
pub fn enrollment_secret(given: Option<String>, from_env: Option<String>) -> (r: Result<String, EnrolError>)
    ensures
        match (given, from_env) {
            (Some(s), _) => r == Ok::<String, EnrolError>(s),
            (None, Some(s)) => r == Ok::<String, EnrolError>(s),
            (None, None) => r == Err::<String, EnrolError>(EnrolError::NeedsEnrollmentSecret),
        },
{
    match given {
        Some(s) => Ok(s),
        None => match from_env {
            Some(s) => Ok(s),
            None => Err(EnrolError::NeedsEnrollmentSecret),
        },
    }
}

/// The relay fields of the pairing QR: the enrolment's relay and account when
/// the agent holds both an enrolment and its token, otherwise two empty
/// strings, which is how a LAN-only QR says "no relay".
pub fn qr_relay_fields(stored: Option<&RelayEnrolment>, has_token: bool) -> (r: (String, String))
    ensures
        match stored {
            Some(e) if has_token => r.0@ == e.base_url@ && r.1@ == uuid_text(e.account_id),
            _ => r.0@.len() == 0 && r.1@.len() == 0,
        },
{
    match stored {
        Some(e) => if has_token {
            (e.base_url.clone(), uuid_string(e.account_id))
        } else {
            (String::new(), String::new())
        },
        None => (String::new(), String::new()),
    }
}

/// The account stamped on every audit entry: the relay account, or
/// `lan-only` for an agent with no relay, rather than an invented id that
/// corresponds to nothing.
pub fn audit_account(stored: Option<&RelayEnrolment>) -> (s: String)
    ensures
        match stored {
            Some(e) => s@ == uuid_text(e.account_id),
            None => s@ == "lan-only"@,
        },
{
    match stored {
        Some(e) => uuid_string(e.account_id),
        None => String::from_str("lan-only"),
    }
}

/// What `unpair` did.
#[derive(Debug)]
pub struct UnpairOutcome {
    /// The pins that were removed.
    pub removed: Vec<PairedPeer>,
    /// Sessions closed at once through the live-session table. Zero when
    /// `unpair` runs as its own process: the running agent's watcher closes
    /// them instead, within its poll interval.
    pub sessions_closed: usize,
    /// Relay calls that failed. Never fatal: the revocation has already taken
    /// effect by the time any of them is made.
    pub relay_errors: Vec<String>,
}

/// The relay device ids `unpair` revokes for `removed`, in order: a peer
/// paired over the LAN alone has no relay row, and nothing fails for it.
pub fn relay_revocations(removed: &[PairedPeer]) -> (ids: Vec<u128>)
    ensures
        ids@ == removed@.filter(|p: PairedPeer| p.relay_device_id is Some)
            .map_values(|p: PairedPeer| p.relay_device_id.unwrap()),
{
    let ghost keep = |p: PairedPeer| p.relay_device_id is Some;
    let ghost id = |p: PairedPeer| p.relay_device_id.unwrap();
    let mut ids: Vec<u128> = Vec::new();
    let mut i: usize = 0;
    while i < removed.len()
        invariant
            i <= removed@.len(),
            keep == (|p: PairedPeer| p.relay_device_id is Some),
            id == (|p: PairedPeer| p.relay_device_id.unwrap()),
            ids@ == removed@.subrange(0, i as int).filter(keep).map_values(id),
        decreases removed@.len() - i,
    {
        let p = &removed[i];
        proof {
            assert(removed@.subrange(0, i + 1) =~= removed@.subrange(0, i as int).push(*p));
            removed@.subrange(0, i as int).lemma_filter_push(*p, keep);
        }
        match p.relay_device_id {
            Some(d) => {
                ids.push(d);
                assert(removed@.subrange(0, i as int).filter(keep).push(*p).map_values(id)
                    =~= removed@.subrange(0, i as int).filter(keep).map_values(id).push(d));
            },
            None => {},
        }
        i = i + 1;
    }
    assert(removed@.subrange(0, removed@.len() as int) =~= removed@);
    ids
}

/// The agent's display name on first run: the first of `COMPUTERNAME` and
/// `HOSTNAME` that is set and not blank once trimmed, else `osprey-host`.
pub fn default_display_name(computer_name: Option<String>, host_name: Option<String>) -> (s: String)
    ensures
        s@ == match computer_name {
            Some(c) if trimmed(c@).len() > 0 => trimmed(c@),
            _ => match host_name {
                Some(h) if trimmed(h@).len() > 0 => trimmed(h@),
                _ => "osprey-host"@,
            },
        },
{
    match computer_name {
        Some(c) => {
            let t = trim_text(c.as_str());
            if t.unicode_len() > 0 {
                return String::from_str(t);
            }
        },
        None => {},
    }
    match host_name {
        Some(h) => {
            let t = trim_text(h.as_str());
            if t.unicode_len() > 0 {
                return String::from_str(t);
            }
        },
        None => {},
    }
    String::from_str("osprey-host")
}

} // verus!
