//! Applying a peer-signed `pair.revoke` to this host's pin store.
//!
//! The operator at the machine unpairs from the command line; the operator
//! holding the phone has no physical access and signs a revocation instead.
//! Whether the signature is genuine is decided by the pairing crate; this
//! module owns what happens next, and the order is the security property:
//!
//! 1. the nonce is recorded, so a replay is refused even if step 2 fails;
//! 2. the pin is removed;
//! 3. the service persists the state, audits the unpair and hangs up.
//!
//! The relay is not consulted and gets no veto.

use vstd::prelude::*;
use crate::state::{HostState, PairedPeer, PinnedPeer, PeerSelector, SelectorView, ConsumedRevocation,
    spent, still_replayable, selects, hex_lower};
use crate::text::{join2, starts_with};

verus! {

/// The class of an error the agent puts on the wire.
#[derive(Debug, Clone, Copy, PartialEq, Eq)]
pub enum ErrorCode {
    /// The request does not match its schema.
    BadRequest,
    /// The request is well formed but not authorised.
    Unauthorized,
    /// The request was valid once but is spent.
    Conflict,
    /// The host could not act on a valid request.
    Internal,
    /// No common protocol version.
    VersionMismatch,
    /// Reserved but not implemented in this build.
    Unsupported,
}

/// Why the pairing crate refused a revocation message.
#[derive(Debug, Clone, Copy, PartialEq, Eq)]
pub enum RevocationRejection {
    /// The message does not have the shape of a revocation.
    Malformed,
    /// The signature does not verify under the pinned identity key.
    BadSignature,
    /// The message names a different issuer or a different host.
    WrongDevice,
    /// `issued_at` is outside the accepted clock window.
    StaleClock,
    /// The nonce was already acted on.
    ReplayedNonce,
}

/// The operator-facing text of a rejection.
pub open spec fn rejection_text(r: RevocationRejection) -> Seq<char> {
    match r {
        RevocationRejection::Malformed => "the message is not a well-formed revocation"@,
        RevocationRejection::BadSignature => "the signature does not verify under the pinned identity"@,
        RevocationRejection::WrongDevice => "the revocation names a different device"@,
        RevocationRejection::StaleClock => "issued_at is outside the accepted clock window"@,
        RevocationRejection::ReplayedNonce => "the nonce was already used"@,
    }
}

impl RevocationRejection {
    /// The operator-facing text of this rejection.
    pub fn describe(&self) -> (s: String)
        ensures
            s@ == rejection_text(*self),
    {
        match self {
            RevocationRejection::Malformed => String::from_str("the message is not a well-formed revocation"),
            RevocationRejection::BadSignature => String::from_str("the signature does not verify under the pinned identity"),
            RevocationRejection::WrongDevice => String::from_str("the revocation names a different device"),
            RevocationRejection::StaleClock => String::from_str("issued_at is outside the accepted clock window"),
            RevocationRejection::ReplayedNonce => String::from_str("the nonce was already used"),
        }
    }
}

/// Why a revocation did not take effect.
#[derive(Debug, Clone, PartialEq, Eq)]
pub enum RevocationRefusal {
    /// The message itself was refused. Nothing was written.
    Rejected(RevocationRejection),
    /// The message verified but the host could not act on it (the detail is
    /// for the log). The pairing is unchanged, and the peer is told so rather
    /// than left to assume it was unpaired.
    NotApplied(String),
}

/// The wire class of a refusal.
pub open spec fn refusal_code(r: RevocationRefusal) -> ErrorCode {
    match r {
        RevocationRefusal::Rejected(RevocationRejection::Malformed) => ErrorCode::BadRequest,
        RevocationRefusal::Rejected(RevocationRejection::ReplayedNonce) => ErrorCode::Conflict,
        RevocationRefusal::Rejected(_) => ErrorCode::Unauthorized,
        RevocationRefusal::NotApplied(_) => ErrorCode::Internal,
    }
}

/// The text of a refusal that is safe to put on the wire: host paths and io
/// detail stay in the log.
pub open spec fn refusal_wire_message(r: RevocationRefusal) -> Seq<char> {
    match r {
        RevocationRefusal::Rejected(reason) => "pair.revoke refused: "@ + rejection_text(reason),
        RevocationRefusal::NotApplied(_) => "the revocation could not be applied at the host"@,
    }
}

impl RevocationRefusal {
    /// Wire error class. A replay is a `conflict` rather than `unauthorized`:
    /// the signature was good, the message is simply spent.
    pub fn code(&self) -> (c: ErrorCode)
        ensures
            c == refusal_code(*self),
    {
        match self {
            RevocationRefusal::Rejected(RevocationRejection::Malformed) => ErrorCode::BadRequest,
            RevocationRefusal::Rejected(RevocationRejection::ReplayedNonce) => ErrorCode::Conflict,
            RevocationRefusal::Rejected(_) => ErrorCode::Unauthorized,
            RevocationRefusal::NotApplied(_) => ErrorCode::Internal,
        }
    }

    /// The refusal as the log shows it, detail included.
    pub fn describe(&self) -> (s: String)
        ensures
            s@ == match *self {
                RevocationRefusal::Rejected(reason) => "rejected: "@ + rejection_text(reason),
                RevocationRefusal::NotApplied(detail) => "not applied: "@ + detail@,
            },
    {
        match self {
            RevocationRefusal::Rejected(reason) => {
                let text = reason.describe();
                join2("rejected: ", text.as_str())
            },
            RevocationRefusal::NotApplied(detail) => join2("not applied: ", detail.as_str()),
        }
    }

    /// Text safe to put on the wire.
    pub fn wire_message(&self) -> (s: String)
        ensures
            s@ == refusal_wire_message(*self),
    {
        match self {
            RevocationRefusal::Rejected(reason) => {
                let text = reason.describe();
                join2("pair.revoke refused: ", text.as_str())
            },
            RevocationRefusal::NotApplied(_) => String::from_str("the revocation could not be applied at the host"),
        }
    }
}

/// A revocation that took effect.
#[derive(Debug, Clone)]
pub struct AppliedRevocation {
    /// The fingerprint of the peer that is no longer pinned.
    pub fingerprint: String,
    /// The records that were removed. Empty when a local unpair won the race:
    /// the peer's stated goal already holds.
    pub removed: Vec<PairedPeer>,
}

/// Whether a peer record carries the pin with fingerprint `fingerprint`.
pub open spec fn carries_pin(fingerprint: Seq<char>, p: PairedPeer) -> bool {
    starts_with(p.pinned.fingerprint@, fingerprint)
}

/// Record the nonce of a verified revocation, then remove the pin whose
/// fingerprint is `fingerprint`.
///
/// The nonce is recorded before the pin is touched: if the service dies
/// between the two, the worst case is a revocation that must be re-issued,
/// not one that can be replayed after the operator re-pairs. A nonce already
/// recorded is refused as a replay and nothing changes.
pub fn remove_pin(state: &mut HostState, fingerprint: &str, nonce: &[u8], issued_at_ms: i64, now_ms: i64, window_ms: i64)
    -> (r: Result<Vec<PairedPeer>, RevocationRefusal>)
    ensures
        spent(old(state)@.consumed, nonce@) ==> {
            &&& r == Err::<Vec<PairedPeer>, RevocationRefusal>(RevocationRefusal::Rejected(RevocationRejection::ReplayedNonce))
            &&& *final(state) == *old(state)
        },
        !spent(old(state)@.consumed, nonce@) ==> {
            &&& r is Ok
            &&& r->Ok_0@ == old(state)@.peers.filter(|p: PairedPeer| carries_pin(fingerprint@, p))
            &&& final(state)@.peers == old(state)@.peers.filter(|p: PairedPeer| !carries_pin(fingerprint@, p))
            &&& final(state)@.consumed.drop_last() == old(state)@.consumed.filter(
                |seen: ConsumedRevocation| still_replayable(seen, now_ms, window_ms))
            &&& final(state)@.consumed.last() == ConsumedRevocation { nonce: final(state)@.consumed.last().nonce, issued_at_ms }
            &&& final(state)@.consumed.last().nonce@ == hex_lower(nonce@)
        },
        spent(final(state)@.consumed, nonce@),
        final(state)@.device_id == old(state)@.device_id,
        final(state)@.display_name == old(state)@.display_name,
        final(state)@.relay == old(state)@.relay,
{
    let fresh = state.consume_revocation_nonce(nonce, issued_at_ms, now_ms, window_ms);
    if !fresh {
        return Err(RevocationRefusal::Rejected(RevocationRejection::ReplayedNonce));
    }
    let ghost consumed = state@.consumed;
    let selector = PeerSelector::FingerprintPrefix(String::from_str(fingerprint));
    assert(selector@ == SelectorView::FingerprintPrefix(fingerprint@));
    let removed = state.remove_peers(&selector);
    assert(spent(consumed, nonce@));
    proof {
        let sel = selector@;
        assert((|p: PairedPeer| selects(sel, p)) =~= (|p: PairedPeer| carries_pin(fingerprint@, p)));
        assert((|p: PairedPeer| !selects(sel, p)) =~= (|p: PairedPeer| !carries_pin(fingerprint@, p)));
    }
    Ok(removed)
}

/// Act on a `pair.revoke` from `peer`, given what the pairing crate's
/// verification of it returned: the message's nonce, or why it was refused.
///
/// A refused message changes nothing. A verified one goes through
/// [`remove_pin`] under `peer`'s fingerprint.
pub fn apply(state: &mut HostState, verdict: Result<Vec<u8>, RevocationRejection>, peer: &PinnedPeer,
    issued_at_ms: i64, now_ms: i64, window_ms: i64) -> (r: Result<AppliedRevocation, RevocationRefusal>)
    ensures
        match verdict {
            Err(rejection) => {
                &&& r == Err::<AppliedRevocation, RevocationRefusal>(RevocationRefusal::Rejected(rejection))
                &&& *final(state) == *old(state)
            },
            Ok(nonce) => {
                &&& spent(old(state)@.consumed, nonce@) ==> {
                    &&& r == Err::<AppliedRevocation, RevocationRefusal>(RevocationRefusal::Rejected(RevocationRejection::ReplayedNonce))
                    &&& *final(state) == *old(state)
                }
                &&& !spent(old(state)@.consumed, nonce@) ==> {
                    &&& r is Ok
                    &&& r->Ok_0.fingerprint@ == peer.fingerprint@
                    &&& r->Ok_0.removed@ == old(state)@.peers.filter(|p: PairedPeer| carries_pin(peer.fingerprint@, p))
                    &&& final(state)@.peers == old(state)@.peers.filter(|p: PairedPeer| !carries_pin(peer.fingerprint@, p))
                    &&& spent(final(state)@.consumed, nonce@)
                }
            },
        },
        final(state)@.device_id == old(state)@.device_id,
        final(state)@.relay == old(state)@.relay,
{
    match verdict {
        Err(rejection) => Err(RevocationRefusal::Rejected(rejection)),
        Ok(nonce) => {
            match remove_pin(state, peer.fingerprint.as_str(), nonce.as_slice(), issued_at_ms, now_ms, window_ms) {
                Ok(removed) => Ok(AppliedRevocation { fingerprint: peer.fingerprint.clone(), removed }),
                Err(refusal) => Err(refusal),
            }
        },
    }
}

} // verus!
