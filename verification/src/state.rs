//! The agent's record of who it is and who it trusts.
//!
//! The pinned-peer list is the enforcement point for unpairing: a LAN session
//! never touches the relay, so only this list can stop one, and a hostile
//! relay must not be able to reinstate a pin it does not hold. This module
//! holds the record in memory and decides every change to it; the service
//! persists it after each change.

use vstd::prelude::*;
use crate::discovery::{uuid_string, uuid_text};
use crate::text::{join2, ascii_lower, is_hex_digit, eq_ignore_ascii_case, starts_with,
    equals_ignore_ascii_case, to_ascii_lower, hex_digit, has_prefix};

verus! {

/// Bumped on any layout change; a mismatch is a hard error, never a lossy
/// parse.
pub const STATE_VERSION: u32 = 2;

/// The keystore label the relay bearer token is sealed under: secrets live in
/// the keystore, never in the state file.
pub const RELAY_TOKEN_LABEL: &'static str = "relay-device-token";

/// Short enough to type, long enough that a typo does not silently select a
/// different peer.
pub const MIN_FINGERPRINT_PREFIX: usize = 8;

/// A controller's pinned keys, as the pairing handshake established them.
#[derive(Debug, Clone, PartialEq, Eq)]
pub struct PinnedPeer {
    /// The controller's identity public key: the pin itself.
    pub identity_pub: [u8; 32],
    /// The Noise static key the identity key vouched for.
    pub noise_static_pub: [u8; 32],
    /// The identity key's fingerprint in lowercase hex, as `pair` printed it.
    pub fingerprint: String,
}

/// A controller this agent has pinned.
#[derive(Debug, Clone, PartialEq, Eq)]
pub struct PairedPeer {
    pub pinned: PinnedPeer,
    /// The peer's relay device id, present only when the pairing was brokered
    /// through a relay.
    pub relay_device_id: Option<u128>,
    /// Wall-clock pin time in milliseconds since the Unix epoch.
    pub paired_at_ms: i64,
}

impl PairedPeer {
    /// The peer's identity fingerprint.
    pub fn fingerprint(&self) -> (f: &String)
        ensures
            f@ == self.pinned.fingerprint@,
    {
        &self.pinned.fingerprint
    }
}

/// What the agent needs to talk to a relay it has enrolled with.
#[derive(Debug, Clone, PartialEq, Eq)]
pub struct RelayEnrolment {
    pub base_url: String,
    pub account_id: u128,
    pub device_id: u128,
}

/// A `pair.revoke` this agent has already acted on.
#[derive(Debug, Clone, PartialEq, Eq)]
pub struct ConsumedRevocation {
    /// Lowercase hex of the nonce bytes.
    pub nonce: String,
    pub issued_at_ms: i64,
}

/// How the operator named a peer on the command line.
#[derive(Debug, Clone, PartialEq, Eq)]
pub enum PeerSelector {
    /// Every pinned peer.
    All,
    /// A relay device id.
    DeviceId(u128),
    /// A lowercase hex prefix of the peer's identity fingerprint, at least
    /// [`MIN_FINGERPRINT_PREFIX`] characters.
    FingerprintPrefix(String),
}

/// The value of a [`PeerSelector`].
pub enum SelectorView {
    All,
    DeviceId(u128),
    FingerprintPrefix(Seq<char>),
}

impl View for PeerSelector {
    type V = SelectorView;

    open spec fn view(&self) -> SelectorView {
        match self {
            PeerSelector::All => SelectorView::All,
            PeerSelector::DeviceId(id) => SelectorView::DeviceId(*id),
            PeerSelector::FingerprintPrefix(p) => SelectorView::FingerprintPrefix(p@),
        }
    }
}

/// Why a selector was refused.
#[derive(Debug, Clone, PartialEq, Eq)]
pub enum SelectorError {
    /// Not `all`, a device uuid, or a long enough fingerprint prefix.
    Unrecognised,
}

/// Whether `c` has the Unicode `White_Space` property, which is what
/// `str::trim` strips: tab through carriage return, space, next line,
/// no-break space, ogham space mark, the spaces from en quad to hair space,
/// the line and paragraph separators, narrow no-break space, medium
/// mathematical space and ideographic space.
pub open spec fn is_white_space(c: char) -> bool {
    let u = c as u32;
    ||| 0x09 <= u <= 0x0D
    ||| u == 0x20
    ||| u == 0x85
    ||| u == 0xA0
    ||| u == 0x1680
    ||| 0x2000 <= u <= 0x200A
    ||| u == 0x2028
    ||| u == 0x2029
    ||| u == 0x202F
    ||| u == 0x205F
    ||| u == 0x3000
}

/// `s` without its leading white space.
pub open spec fn trimmed_start(s: Seq<char>) -> Seq<char>
    decreases s.len(),
{
    if s.len() > 0 && is_white_space(s[0]) { trimmed_start(s.drop_first()) } else { s }
}

/// `s` without its trailing white space.
pub open spec fn trimmed_end(s: Seq<char>) -> Seq<char>
    decreases s.len(),
{
    if s.len() > 0 && is_white_space(s.last()) { trimmed_end(s.drop_last()) } else { s }
}

/// `s` without its leading and trailing white space, as `str::trim` leaves it.
pub open spec fn trimmed(s: Seq<char>) -> Seq<char> {
    trimmed_end(trimmed_start(s))
}

/// Whether `c` is white space, in the sense of [`is_white_space`].
fn white_space(c: char) -> (b: bool)
    ensures
        b == is_white_space(c),
{
    let u = c as u32;
    (0x09 <= u && u <= 0x0D) || u == 0x20 || u == 0x85 || u == 0xA0 || u == 0x1680
        || (0x2000 <= u && u <= 0x200A) || u == 0x2028 || u == 0x2029 || u == 0x202F || u == 0x205F
        || u == 0x3000
}

/// `s` without its leading and trailing white space.
pub(crate) fn trim_text(s: &str) -> (r: &str)
    ensures
        r@ == trimmed(s@),
{
    let n = s.unicode_len();
    let mut i: usize = 0;
    assert(s@.skip(0) =~= s@);
    while i < n && white_space(s.get_char(i))
        invariant
            n == s@.len(),
            i <= n,
            trimmed_start(s@) == trimmed_start(s@.skip(i as int)),
        decreases n - i,
    {
        assert(s@.skip(i as int).drop_first() =~= s@.skip(i + 1));
        i = i + 1;
    }
    assert(trimmed_start(s@) == s@.subrange(i as int, n as int)) by {
        assert(s@.skip(i as int) =~= s@.subrange(i as int, n as int));
    }
    let mut j: usize = n;
    while j > i && white_space(s.get_char(j - 1))
        invariant
            n == s@.len(),
            i <= j <= n,
            trimmed(s@) == trimmed_end(s@.subrange(i as int, j as int)),
        decreases j,
    {
        assert(s@.subrange(i as int, j as int).drop_last() =~= s@.subrange(i as int, j - 1));
        j = j - 1;
    }
    s.substring_char(i, j)
}

/// The UUID `uuid::Uuid::parse_str` reads from `s`, as its 128-bit value, or
/// `None` when it refuses the text.
pub uninterp spec fn parsed_uuid(s: Seq<char>) -> Option<u128>;

/// `uuid::Uuid::parse_str` followed by `as_u128`: the UUID the text spells in
/// any of the formats the crate accepts, or `None`.
#[verifier::external_body]
fn parse_uuid(s: &str) -> (r: Option<u128>)
    ensures
        r == parsed_uuid(s@),
{
    uuid::Uuid::parse_str(s).ok().map(|id| id.as_u128())
}

/// `s` with every `-` removed and ASCII letters lowercased.
pub open spec fn normalise_fingerprint(s: Seq<char>) -> Seq<char>
    decreases s.len(),
{
    if s.len() == 0 {
        Seq::empty()
    } else if s.last() == '-' {
        normalise_fingerprint(s.drop_last())
    } else {
        normalise_fingerprint(s.drop_last()).push(ascii_lower(s.last()))
    }
}

/// `c` with `A`-`Z` mapped to `a`-`z` and every other character kept.
pub open spec fn lowered(c: char) -> char {
    if 'A' <= c && c <= 'Z' { ((c as u32) + 32) as char } else { c }
}

/// Whether `c` is `0`-`9`, `a`-`f` or `A`-`F`.
pub open spec fn hex_char(c: char) -> bool {
    ('0' <= c && c <= '9') || ('a' <= c && c <= 'f') || ('A' <= c && c <= 'F')
}

/// Normalising a fingerprint drops every `-`, wherever it stands, keeps every
/// other character in order, and lowercases the ASCII capitals: no dash is
/// left in the result.
pub proof fn normalising_drops_every_dash_and_lowercases(s: Seq<char>)
    ensures
        normalise_fingerprint(s) == s.filter(|c: char| c != '-').map_values(|c: char| lowered(c)),
        forall|i: int| 0 <= i < normalise_fingerprint(s).len() ==> #[trigger] normalise_fingerprint(s)[i] != '-',
    decreases s.len(),
{
    let keep = |c: char| c != '-';
    let low = |c: char| lowered(c);
    if s.len() > 0 {
        let init = s.drop_last();
        normalising_drops_every_dash_and_lowercases(init);
        init.lemma_filter_push(s.last(), keep);
        assert(init.push(s.last()) =~= s);
        if s.last() != '-' {
            assert(init.filter(keep).push(s.last()).map_values(low)
                =~= init.filter(keep).map_values(low).push(lowered(s.last())));
        }
    } else {
        assert(s.filter(keep) =~= Seq::<char>::empty());
        assert(s.filter(keep).map_values(low) =~= Seq::<char>::empty());
    }
    assert forall|i: int| 0 <= i < normalise_fingerprint(s).len() implies #[trigger] normalise_fingerprint(s)[i] != '-' by {
        let f = s.filter(keep);
        assert(normalise_fingerprint(s)[i] == lowered(f[i]));
        s.lemma_filter_pred(keep, i);
    }
}

/// A selector made only of hex digits and dashes, with at least eight hex
/// digits, is a fingerprint prefix (unless `uuid` reads it as a UUID): the
/// prefix is the digits in order, lowercased, with every dash dropped, so the
/// grouped form `pair` prints (`aabb-ccdd-eeff`) selects like the bare digits.
pub proof fn a_dash_grouped_hex_selector_is_a_fingerprint_prefix(raw: Seq<char>)
    requires
        forall|i: int| 0 <= i < raw.len() ==> hex_char(#[trigger] raw[i]) || raw[i] == '-',
        raw.filter(|c: char| c != '-').len() >= 8,
        parsed_uuid(raw) is None,
    ensures
        selector_of(raw) == Ok::<SelectorView, SelectorError>(
            SelectorView::FingerprintPrefix(raw.filter(|c: char| c != '-').map_values(|c: char| lowered(c)))),
{
    let keep = |c: char| c != '-';
    assert(trimmed(raw) == raw) by {
        if raw.len() > 0 {
            assert(!is_white_space(raw[0]));
            assert(trimmed_start(raw) == raw);
            assert(!is_white_space(raw.last()));
        }
    }
    normalising_drops_every_dash_and_lowercases(raw);
    let n = normalise_fingerprint(raw);
    let f = raw.filter(keep);
    assert(!eq_ignore_ascii_case(raw, "all"@)) by {
        reveal_strlit("all");
        if eq_ignore_ascii_case(raw, "all"@) {
            assert(ascii_lower(raw[1]) == ascii_lower('l'));
            assert(hex_char(raw[1]) || raw[1] == '-');
        }
    }
    assert forall|i: int| 0 <= i < n.len() implies #[trigger] is_hex_digit(n[i]) by {
        assert(f.contains(f[i]));
        raw.lemma_filter_contains_rev(keep, f[i]);
        let j = choose|j: int| 0 <= j < raw.len() && raw[j] == f[i];
        assert(hex_char(raw[j]) || raw[j] == '-');
        assert(n[i] == lowered(f[i]));
    }
}

/// What [`PeerSelector::parse`] makes of `raw`.
pub open spec fn selector_of(raw: Seq<char>) -> Result<SelectorView, SelectorError> {
    let t = trimmed(raw);
    if eq_ignore_ascii_case(t, "all"@) {
        Ok(SelectorView::All)
    } else if parsed_uuid(t) is Some {
        Ok(SelectorView::DeviceId(parsed_uuid(t).unwrap()))
    } else {
        let n = normalise_fingerprint(t);
        if n.len() >= MIN_FINGERPRINT_PREFIX && forall|i: int| 0 <= i < n.len() ==> #[trigger] is_hex_digit(n[i]) {
            Ok(SelectorView::FingerprintPrefix(n))
        } else {
            Err(SelectorError::Unrecognised)
        }
    }
}

/// Whether `selector` names `peer`.
pub open spec fn selects(selector: SelectorView, peer: PairedPeer) -> bool {
    match selector {
        SelectorView::All => true,
        SelectorView::DeviceId(id) => peer.relay_device_id == Some(id),
        SelectorView::FingerprintPrefix(prefix) => starts_with(peer.pinned.fingerprint@, prefix),
    }
}

fn normalise(t: &str) -> (r: String)
    ensures
        r@ == normalise_fingerprint(t@),
{
    let n = t.unicode_len();
    let mut r = String::new();
    let mut i: usize = 0;
    while i < n
        invariant
            n == t@.len(),
            i <= n,
            r@ == normalise_fingerprint(t@.subrange(0, i as int)),
        decreases n - i,
    {
        let c = t.get_char(i);
        assert(t@.subrange(0, i + 1).drop_last() =~= t@.subrange(0, i as int));
        if c != '-' {
            r.push(to_ascii_lower(c));
        }
        i = i + 1;
    }
    assert(t@.subrange(0, n as int) =~= t@);
    r
}

fn all_hex(s: &str) -> (b: bool)
    ensures
        b == forall|i: int| 0 <= i < s@.len() ==> #[trigger] is_hex_digit(s@[i]),
{
    let n = s.unicode_len();
    let mut i: usize = 0;
    while i < n
        invariant
            n == s@.len(),
            i <= n,
            forall|k: int| 0 <= k < i ==> #[trigger] is_hex_digit(s@[k]),
        decreases n - i,
    {
        if !hex_digit(s.get_char(i)) {
            return false;
        }
        i = i + 1;
    }
    true
}

impl PeerSelector {
    /// Read an operator's selector: `all` in any case, a device UUID, or a
    /// fingerprint prefix in the grouped form `pair` printed (dashes are
    /// dropped and letters lowercased). Surrounding white space is ignored.
    pub fn parse(raw: &str) -> (r: Result<PeerSelector, SelectorError>)
        ensures
            match r {
                Ok(sel) => selector_of(raw@) == Ok::<SelectorView, SelectorError>(sel@),
                Err(e) => selector_of(raw@) == Err::<SelectorView, SelectorError>(e),
            },
    {
        let t = trim_text(raw);
        if equals_ignore_ascii_case(t, "all") {
            return Ok(PeerSelector::All);
        }
        match parse_uuid(t) {
            Some(id) => Ok(PeerSelector::DeviceId(id)),
            None => {
                let normalised = normalise(t);
                if normalised.as_str().unicode_len() >= MIN_FINGERPRINT_PREFIX && all_hex(normalised.as_str()) {
                    Ok(PeerSelector::FingerprintPrefix(normalised))
                } else {
                    Err(SelectorError::Unrecognised)
                }
            },
        }
    }

    /// How the selector reads in an operator-facing message.
    pub fn describe(&self) -> (s: String)
        ensures
            s@ == match self@ {
                SelectorView::All => "all pinned controllers"@,
                SelectorView::DeviceId(id) => "relay device "@ + uuid_text(id),
                SelectorView::FingerprintPrefix(p) => "fingerprint prefix "@ + p,
            },
    {
        match self {
            PeerSelector::All => String::from_str("all pinned controllers"),
            PeerSelector::DeviceId(id) => {
                let text = uuid_string(*id);
                join2("relay device ", text.as_str())
            },
            PeerSelector::FingerprintPrefix(p) => join2("fingerprint prefix ", p.as_str()),
        }
    }

    /// Whether this selector names `peer`.
    pub fn matches(&self, peer: &PairedPeer) -> (b: bool)
        ensures
            b == selects(self@, *peer),
    {
        match self {
            PeerSelector::All => true,
            PeerSelector::DeviceId(id) => match peer.relay_device_id {
                Some(d) => d == *id,
                None => false,
            },
            PeerSelector::FingerprintPrefix(prefix) => has_prefix(peer.pinned.fingerprint.as_str(), prefix.as_str()),
        }
    }
}

/// The lowercase hex digit for a nibble below sixteen.
pub open spec fn hex_nibble(n: u8) -> char {
    if n < 10 { ((n + 48) as u8) as char } else { ((n + 87) as u8) as char }
}

/// Lowercase hex of `bytes`: two digits per byte, high nibble first.
pub open spec fn hex_lower(bytes: Seq<u8>) -> Seq<char>
    decreases bytes.len(),
{
    if bytes.len() == 0 {
        Seq::empty()
    } else {
        hex_lower(bytes.drop_last()).push(hex_nibble(bytes.last() / 16)).push(hex_nibble(bytes.last() % 16))
    }
}

/// `hex::encode`: two lowercase hex digits per byte, in order.
#[verifier::external_body]
fn hex_encode(bytes: &[u8]) -> (s: String)
    ensures
        s@ == hex_lower(bytes@),
{
    hex::encode(bytes)
}

/// Whether two keys are the same bytes.
pub fn same_key(a: &[u8; 32], b: &[u8; 32]) -> (r: bool)
    ensures
        r == (a@ == b@),
{
    let mut i: usize = 0;
    while i < 32
        invariant
            i <= 32,
            a@.len() == 32,
            b@.len() == 32,
            forall|k: int| 0 <= k < i ==> #[trigger] a@[k] == b@[k],
        decreases 32 - i,
    {
        if a[i] != b[i] {
            return false;
        }
        i = i + 1;
    }
    assert(a@ =~= b@);
    true
}

/// `now - issued`, saturating at the `i64` range.
pub open spec fn age_ms(now_ms: i64, issued_at_ms: i64) -> int {
    if now_ms - issued_at_ms > i64::MAX { i64::MAX as int }
    else if now_ms - issued_at_ms < i64::MIN { i64::MIN as int }
    else { now_ms - issued_at_ms }
}

/// Whether a consumed nonce could still be replayed past the freshness check.
pub open spec fn still_replayable(seen: ConsumedRevocation, now_ms: i64, window_ms: i64) -> bool {
    age_ms(now_ms, seen.issued_at_ms) <= window_ms
}

/// Whether `nonce` is recorded in `list`.
pub open spec fn spent(list: Seq<ConsumedRevocation>, nonce: Seq<u8>) -> bool {
    exists|i: int| 0 <= i < list.len() && #[trigger] list[i].nonce@ == hex_lower(nonce)
}

/// Re-pairing replaces the pin: after [`HostState::add_peer`] with `peer`,
/// exactly one record carries `peer`'s identity key — `peer` itself, last —
/// and every record for another identity is kept, in order.
pub proof fn repairing_the_same_identity_replaces_the_pin(before: Seq<PairedPeer>, peer: PairedPeer)
    ensures ({
        let after = before.filter(|p: PairedPeer| p.pinned.identity_pub@ != peer.pinned.identity_pub@).push(peer);
        &&& after.last() == peer
        &&& forall|i: int| 0 <= i < after.len() && #[trigger] after[i].pinned.identity_pub@ == peer.pinned.identity_pub@
                ==> i == after.len() - 1
        &&& forall|q: PairedPeer| q.pinned.identity_pub@ != peer.pinned.identity_pub@
                ==> (before.contains(q) <==> after.contains(q))
    }),
{
    let keep = |p: PairedPeer| p.pinned.identity_pub@ != peer.pinned.identity_pub@;
    let kept = before.filter(keep);
    let after = kept.push(peer);
    assert forall|i: int| 0 <= i < after.len() && #[trigger] after[i].pinned.identity_pub@ == peer.pinned.identity_pub@
        implies i == after.len() - 1 by {
        if i < kept.len() {
            assert(keep(kept[i]));
        }
    }
    assert forall|q: PairedPeer| q.pinned.identity_pub@ != peer.pinned.identity_pub@
        implies (before.contains(q) <==> after.contains(q)) by {
        if before.contains(q) {
            let j = choose|j: int| 0 <= j < before.len() && before[j] == q;
            assert(keep(before[j]));
            before.lemma_filter_contains(keep, j);
            assert(kept.contains(q));
            let k = choose|k: int| 0 <= k < kept.len() && kept[k] == q;
            assert(after[k] == q);
        }
        if after.contains(q) {
            let k = choose|k: int| 0 <= k < after.len() && after[k] == q;
            assert(k < kept.len());
            assert(kept[k] == q);
            assert(kept.contains(q));
            before.lemma_filter_contains_rev(keep, q);
        }
    }
}

/// Why a stored state was refused.
#[derive(Debug, Clone, Copy, PartialEq, Eq)]
pub enum StateError {
    /// The file is a schema version this build does not write; a mismatch is
    /// a hard error, never a lossy parse.
    VersionMismatch { found: u32 },
    /// The pin at this position has a Noise static its identity key did not
    /// sign: the pin store has been tampered with.
    Tampered { index: usize },
}

/// Whether a parsed state may be used, given its schema version and, for each
/// pin in order, whether its Noise static verifies under its identity key:
/// the version must be [`STATE_VERSION`] and every pin must verify; the first
/// failure is the one reported.
pub fn validate_state(version: u32, pin_verified: &[bool]) -> (r: Result<(), StateError>)
    ensures
        version != STATE_VERSION ==> r == Err::<(), StateError>(StateError::VersionMismatch { found: version }),
        version == STATE_VERSION ==> match r {
            Ok(_) => forall|i: int| 0 <= i < pin_verified@.len() ==> pin_verified@[i],
            Err(e) => exists|i: int| 0 <= i < pin_verified@.len() && !pin_verified@[i]
                && (forall|j: int| 0 <= j < i ==> pin_verified@[j])
                && e == StateError::Tampered { index: i as usize },
        },
{
    if version != STATE_VERSION {
        return Err(StateError::VersionMismatch { found: version });
    }
    let mut i: usize = 0;
    while i < pin_verified.len()
        invariant
            version == STATE_VERSION,
            i <= pin_verified@.len(),
            forall|j: int| 0 <= j < i ==> pin_verified@[j],
        decreases pin_verified@.len() - i,
    {
        if !pin_verified[i] {
            return Err(StateError::Tampered { index: i });
        }
        i = i + 1;
    }
    Ok(())
}

/// The agent's state, in memory. Its fields change only through the methods
/// below, which keep one pin per identity and record every spent nonce.
#[derive(Debug, Clone)]
pub struct HostState {
    /// Stable identifier for this agent, generated once.
    device_id: u128,
    display_name: String,
    relay: Option<RelayEnrolment>,
    peers: Vec<PairedPeer>,
    consumed_revocations: Vec<ConsumedRevocation>,
}

/// What a [`HostState`] holds, as plain values.
pub struct HostStateView {
    pub device_id: u128,
    pub display_name: Seq<char>,
    pub relay: Option<RelayEnrolment>,
    /// The pinned peers, in pin order.
    pub peers: Seq<PairedPeer>,
    /// The spent `pair.revoke` nonces still inside their replay window.
    pub consumed: Seq<ConsumedRevocation>,
}

impl View for HostState {
    type V = HostStateView;

    closed spec fn view(&self) -> HostStateView {
        HostStateView {
            device_id: self.device_id,
            display_name: self.display_name@,
            relay: self.relay,
            peers: self.peers@,
            consumed: self.consumed_revocations@,
        }
    }
}

impl HostState {
    /// A first-run state: no relay, nothing pinned, nothing consumed.
    pub fn fresh(device_id: u128, display_name: &str) -> (s: HostState)
        ensures
            s@.device_id == device_id,
            s@.display_name == display_name@,
            s@.relay is None,
            s@.peers.len() == 0,
            s@.consumed.len() == 0,
    {
        HostState {
            device_id,
            display_name: String::from_str(display_name),
            relay: None,
            peers: Vec::new(),
            consumed_revocations: Vec::new(),
        }
    }

    /// The state as it was stored: exactly these fields, as a store that was
    /// itself only ever changed through this type's methods holds them.
    pub fn restore(device_id: u128, display_name: String, relay: Option<RelayEnrolment>, peers: Vec<PairedPeer>,
        consumed: Vec<ConsumedRevocation>) -> (s: HostState)
        ensures
            s@ == (HostStateView {
                device_id,
                display_name: display_name@,
                relay,
                peers: peers@,
                consumed: consumed@,
            }),
    {
        HostState { device_id, display_name, relay, peers, consumed_revocations: consumed }
    }

    /// This agent's device id.
    pub fn device_id(&self) -> (d: u128)
        ensures
            d == self@.device_id,
    {
        self.device_id
    }

    /// The name shown beside a fingerprint.
    pub fn display_name(&self) -> (n: &str)
        ensures
            n@ == self@.display_name,
    {
        self.display_name.as_str()
    }

    /// The relay this agent is enrolled with, if any.
    pub fn relay(&self) -> (r: Option<&RelayEnrolment>)
        ensures
            r == match self@.relay { Some(e) => Some(&e), None => None::<&RelayEnrolment> },
    {
        match &self.relay {
            Some(e) => Some(e),
            None => None,
        }
    }

    /// Every pinned peer, in pin order.
    pub fn peers(&self) -> (p: &[PairedPeer])
        ensures
            p@ == self@.peers,
    {
        self.peers.as_slice()
    }

    /// The spent `pair.revoke` nonces still inside their replay window, oldest
    /// first.
    pub fn consumed_revocations(&self) -> (c: &[ConsumedRevocation])
        ensures
            c@ == self@.consumed,
    {
        self.consumed_revocations.as_slice()
    }

    /// The pins alone, in pin order.
    pub fn pins(&self) -> (p: Vec<PinnedPeer>)
        ensures
            p@.len() == self@.peers.len(),
            forall|i: int| 0 <= i < p@.len() ==> {
                &&& #[trigger] p@[i].identity_pub == self@.peers[i].pinned.identity_pub
                &&& p@[i].noise_static_pub == self@.peers[i].pinned.noise_static_pub
                &&& p@[i].fingerprint@ == self@.peers[i].pinned.fingerprint@
            },
    {
        let mut p: Vec<PinnedPeer> = Vec::new();
        let mut i: usize = 0;
        while i < self.peers.len()
            invariant
                i <= self.peers@.len(),
                p@.len() == i,
                forall|k: int| 0 <= k < i ==> {
                    &&& #[trigger] p@[k].identity_pub == self.peers@[k].pinned.identity_pub
                    &&& p@[k].noise_static_pub == self.peers@[k].pinned.noise_static_pub
                    &&& p@[k].fingerprint@ == self.peers@[k].pinned.fingerprint@
                },
            decreases self.peers@.len() - i,
        {
            let pin = &self.peers[i].pinned;
            p.push(PinnedPeer {
                identity_pub: pin.identity_pub,
                noise_static_pub: pin.noise_static_pub,
                fingerprint: pin.fingerprint.clone(),
            });
            i = i + 1;
        }
        p
    }

    /// Record the relay this agent enrolled with, replacing any earlier one.
    pub fn set_relay(&mut self, relay: RelayEnrolment)
        ensures
            final(self)@.relay == Some(relay),
            final(self)@.device_id == old(self)@.device_id,
            final(self)@.display_name == old(self)@.display_name,
            final(self)@.peers == old(self)@.peers,
            final(self)@.consumed == old(self)@.consumed,
    {
        self.relay = Some(relay);
    }

    /// Pin a peer. Re-pairing an already-pinned identity replaces its record
    /// rather than adding a second one, so the peer's current Noise static is
    /// the only one ever accepted.
    pub fn add_peer(&mut self, peer: PairedPeer)
        ensures
            final(self)@.peers == old(self)@.peers.filter(
                |p: PairedPeer| p.pinned.identity_pub@ != peer.pinned.identity_pub@).push(peer),
            final(self)@.device_id == old(self)@.device_id,
            final(self)@.display_name == old(self)@.display_name,
            final(self)@.relay == old(self)@.relay,
            final(self)@.consumed == old(self)@.consumed,
    {
        let ghost before = self.peers@;
        let ghost keep = |p: PairedPeer| p.pinned.identity_pub@ != peer.pinned.identity_pub@;
        let mut rest: Vec<PairedPeer> = Vec::new();
        std::mem::swap(&mut rest, &mut self.peers);
        let mut kept: Vec<PairedPeer> = Vec::new();
        while rest.len() > 0
            invariant
                before.len() >= rest@.len(),
                before == before.subrange(0, before.len() - rest@.len()) + rest@,
                kept@ == before.subrange(0, before.len() - rest@.len()).filter(keep),
                keep == (|p: PairedPeer| p.pinned.identity_pub@ != peer.pinned.identity_pub@),
            decreases rest@.len(),
        {
            let ghost done = before.len() - rest@.len();
            let existing = rest.remove(0);
            assert(before[done] == existing);
            assert(before.subrange(0, done + 1) =~= before.subrange(0, done).push(existing));
            assert(before =~= before.subrange(0, done + 1) + rest@);
            proof { before.subrange(0, done).lemma_filter_push(existing, keep); }
            let differs = !same_key(&existing.pinned.identity_pub, &peer.pinned.identity_pub);
            assert(differs == keep(existing));
            if differs {
                kept.push(existing);
            }
            assert(kept@ == before.subrange(0, done + 1).filter(keep));
        }
        assert(before.subrange(0, before.len() as int) =~= before);
        kept.push(peer);
        self.peers = kept;
    }

    /// Record a `pair.revoke` nonce, reporting whether it is new.
    ///
    /// `false` means the nonce was seen before and the caller must refuse the
    /// revocation; nothing changes then. Otherwise entries that can no longer
    /// pass the freshness check (older than `window_ms` at `now_ms`) are
    /// dropped in the same step and the nonce is recorded, which keeps the
    /// list bounded without an arbitrary cap.
    pub fn consume_revocation_nonce(&mut self, nonce: &[u8], issued_at_ms: i64, now_ms: i64, window_ms: i64)
        -> (fresh: bool)
        ensures
            fresh == !spent(old(self)@.consumed, nonce@),
            !fresh ==> *final(self) == *old(self),
            fresh ==> final(self)@.consumed.drop_last() == old(self)@.consumed.filter(
                |seen: ConsumedRevocation| still_replayable(seen, now_ms, window_ms)),
            fresh ==> final(self)@.consumed.len() > 0,
            fresh ==> final(self)@.consumed.last().nonce@ == hex_lower(nonce@),
            fresh ==> final(self)@.consumed.last().issued_at_ms == issued_at_ms,
            spent(final(self)@.consumed, nonce@),
            final(self)@.device_id == old(self)@.device_id,
            final(self)@.display_name == old(self)@.display_name,
            final(self)@.relay == old(self)@.relay,
            final(self)@.peers == old(self)@.peers,
    {
        let encoded = hex_encode(nonce);
        let ghost before = self.consumed_revocations@;
        let mut i: usize = 0;
        while i < self.consumed_revocations.len()
            invariant
                before == self.consumed_revocations@,
                i <= before.len(),
                forall|k: int| 0 <= k < i ==> #[trigger] before[k].nonce@ != encoded@,
                encoded@ == hex_lower(nonce@),
            decreases before.len() - i,
        {
            if self.consumed_revocations[i].nonce == encoded {
                assert(before[i as int].nonce@ == hex_lower(nonce@));
                assert(spent(before, nonce@));
                return false;
            }
            i = i + 1;
        }
        let ghost keep = |seen: ConsumedRevocation| still_replayable(seen, now_ms, window_ms);
        let mut rest: Vec<ConsumedRevocation> = Vec::new();
        std::mem::swap(&mut rest, &mut self.consumed_revocations);
        let mut kept: Vec<ConsumedRevocation> = Vec::new();
        while rest.len() > 0
            invariant
                before.len() >= rest@.len(),
                before == before.subrange(0, before.len() - rest@.len()) + rest@,
                kept@ == before.subrange(0, before.len() - rest@.len()).filter(keep),
                keep == (|seen: ConsumedRevocation| still_replayable(seen, now_ms, window_ms)),
            decreases rest@.len(),
        {
            let ghost done = before.len() - rest@.len();
            let seen = rest.remove(0);
            assert(before[done] == seen);
            assert(before.subrange(0, done + 1) =~= before.subrange(0, done).push(seen));
            assert(before =~= before.subrange(0, done + 1) + rest@);
            proof { before.subrange(0, done).lemma_filter_push(seen, keep); }
            let age: i128 = now_ms as i128 - seen.issued_at_ms as i128;
            let age64: i128 = if age > i64::MAX as i128 { i64::MAX as i128 } else if age < i64::MIN as i128 { i64::MIN as i128 } else { age };
            if age64 <= window_ms as i128 {
                kept.push(seen);
            }
        }
        assert(before.subrange(0, before.len() as int) =~= before);
        kept.push(ConsumedRevocation { nonce: encoded, issued_at_ms });
        self.consumed_revocations = kept;
        assert(self.consumed_revocations@.drop_last() =~= before.filter(keep));
        assert(self.consumed_revocations@[self.consumed_revocations@.len() - 1].nonce@ == hex_lower(nonce@));
        true
    }

    /// Remove every peer `selector` names, returning them in pin order; the
    /// others stay pinned, in order.
    pub fn remove_peers(&mut self, selector: &PeerSelector) -> (removed: Vec<PairedPeer>)
        ensures
            removed@ == old(self)@.peers.filter(|p: PairedPeer| selects(selector@, p)),
            final(self)@.peers == old(self)@.peers.filter(|p: PairedPeer| !selects(selector@, p)),
            final(self)@.device_id == old(self)@.device_id,
            final(self)@.display_name == old(self)@.display_name,
            final(self)@.relay == old(self)@.relay,
            final(self)@.consumed == old(self)@.consumed,
    {
        let ghost before = self.peers@;
        let ghost chosen = |p: PairedPeer| selects(selector@, p);
        let ghost others = |p: PairedPeer| !selects(selector@, p);
        let mut rest: Vec<PairedPeer> = Vec::new();
        std::mem::swap(&mut rest, &mut self.peers);
        let mut removed: Vec<PairedPeer> = Vec::new();
        let mut kept: Vec<PairedPeer> = Vec::new();
        while rest.len() > 0
            invariant
                before.len() >= rest@.len(),
                before == before.subrange(0, before.len() - rest@.len()) + rest@,
                removed@ == before.subrange(0, before.len() - rest@.len()).filter(chosen),
                kept@ == before.subrange(0, before.len() - rest@.len()).filter(others),
                chosen == (|p: PairedPeer| selects(selector@, p)),
                others == (|p: PairedPeer| !selects(selector@, p)),
            decreases rest@.len(),
        {
            let ghost done = before.len() - rest@.len();
            let peer = rest.remove(0);
            assert(before[done] == peer);
            assert(before.subrange(0, done + 1) =~= before.subrange(0, done).push(peer));
            assert(before =~= before.subrange(0, done + 1) + rest@);
            proof {
                before.subrange(0, done).lemma_filter_push(peer, chosen);
                before.subrange(0, done).lemma_filter_push(peer, others);
            }
            if selector.matches(&peer) {
                removed.push(peer);
            } else {
                kept.push(peer);
            }
        }
        assert(before.subrange(0, before.len() as int) =~= before);
        self.peers = kept;
        removed
    }
}

} // verus!
