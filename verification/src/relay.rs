//! The agent's half of the relay HTTP API, minus the HTTP.
//!
//! Nothing here is on the trust path: the relay is assumed fully compromised,
//! so its job is rendezvous and nothing else, and no answer it gives can cause
//! the agent to pin, unpin or trust anything. This module checks the relay
//! address, names the endpoints, builds the key material the relay stores, and
//! decides what each relay answer means; the service makes the requests.

use vstd::prelude::*;
use crate::text::{starts_with, has_prefix, join2};
use crate::discovery::{uuid_string, uuid_text};
use base64::Engine;

verus! {

/// Bearer credential for the relay, in the relay's `<accountId>.<secret>` form.
///
/// Sealed in the keystore rather than written to the state file.
#[derive(Clone)]
pub struct DeviceToken(String);

impl View for DeviceToken {
    type V = Seq<char>;

    closed spec fn view(&self) -> Seq<char> {
        self.0@
    }
}

impl DeviceToken {
    /// Wrap a raw token.
    pub fn new(raw: String) -> (t: DeviceToken)
        ensures
            t@ == raw@,
    {
        DeviceToken(raw)
    }

    /// The `Authorization` header value the relay expects.
    pub fn header(&self) -> (h: String)
        ensures
            h@ == "Bearer "@ + self@,
    {
        join2("Bearer ", self.0.as_str())
    }

    /// What a debug rendering of the token shows: never the secret.
    pub fn debug_text(&self) -> (s: String)
        ensures
            s@ == "DeviceToken(redacted)"@,
    {
        String::from_str("DeviceToken(redacted)")
    }

    /// The raw token.
    pub fn as_str(&self) -> (s: &str)
        ensures
            s@ == self@,
    {
        self.0.as_str()
    }
}

/// Why a relay address was refused.
#[derive(Debug, Clone, PartialEq, Eq)]
pub enum RelayUrlError {
    /// The address does not start with `http://` or `https://`.
    NotHttp,
}

/// `s` with every trailing `/` removed.
pub open spec fn without_trailing_slashes(s: Seq<char>) -> Seq<char>
    decreases s.len(),
{
    if s.len() > 0 && s.last() == '/' { without_trailing_slashes(s.drop_last()) } else { s }
}

/// `s` with every trailing `/` removed.
pub fn trim_trailing_slashes(s: &str) -> (r: &str)
    ensures
        r@ == without_trailing_slashes(s@),
{
    let mut n = s.unicode_len();
    assert(s@.subrange(0, n as int) =~= s@);
    while n > 0 && s.get_char(n - 1) == '/'
        invariant
            n <= s@.len(),
            without_trailing_slashes(s@) == without_trailing_slashes(s@.subrange(0, n as int)),
        decreases n,
    {
        assert(s@.subrange(0, n as int).drop_last() =~= s@.subrange(0, n - 1));
        n = n - 1;
    }
    assert(without_trailing_slashes(s@.subrange(0, n as int)) == s@.subrange(0, n as int));
    s.substring_char(0, n)
}

/// Whether a relay address is acceptable: after its trailing slashes, it
/// starts with `http://` or `https://`.
pub open spec fn relay_url_ok(url: Seq<char>) -> bool {
    let t = without_trailing_slashes(url);
    starts_with(t, "http://"@) || starts_with(t, "https://"@)
}

/// The client half of the relay API: where the relay is.
#[derive(Debug, Clone)]
pub struct RelayClient {
    base_url: String,
}

impl RelayClient {
    /// A client for `base_url`.
    ///
    /// The address is copied straight into the QR the phone scans, so a typo
    /// that produced something other than an HTTP URL must fail here, where a
    /// human is looking, not on the phone. Trailing slashes are dropped so that
    /// paths never double up.
    pub fn new(base_url: &str) -> (r: Result<RelayClient, RelayUrlError>)
        ensures
            r is Ok <==> relay_url_ok(base_url@),
            r matches Ok(c) ==> c.spec_base_url() == without_trailing_slashes(base_url@),
    {
        let trimmed = trim_trailing_slashes(base_url);
        if has_prefix(trimmed, "http://") || has_prefix(trimmed, "https://") {
            Ok(RelayClient { base_url: String::from_str(trimmed) })
        } else {
            Err(RelayUrlError::NotHttp)
        }
    }

    /// The relay address with no trailing slash.
    pub closed spec fn spec_base_url(&self) -> Seq<char> {
        self.base_url@
    }

    /// The relay address with no trailing slash.
    pub fn base_url(&self) -> (s: &str)
        ensures
            s@ == self.spec_base_url(),
    {
        self.base_url.as_str()
    }

    /// The full address of `path` on this relay.
    pub fn url(&self, path: &str) -> (u: String)
        ensures
            u@ == self.spec_base_url() + path@,
    {
        join2(self.base_url.as_str(), path)
    }
}

/// The path of relay device `id`: `/v1/devices/` and its hyphenated UUID.
pub fn device_path(id: u128) -> (p: String)
    ensures
        p@ == "/v1/devices/"@ + uuid_text(id),
{
    let text = uuid_string(id);
    join2("/v1/devices/", text.as_str())
}

/// What the relay's `/v1/devices` listing says of one device.
#[derive(Debug, Clone)]
pub struct DeviceSummary {
    pub id: u128,
    /// The device's identity public key, base64 with padding.
    pub identity_public_key: String,
}

/// The character the standard base64 alphabet writes for the six bits `v`:
/// `A`-`Z`, `a`-`z`, `0`-`9`, then `+` and `/`.
pub open spec fn base64_digit(v: int) -> char {
    if v < 26 {
        (65 + v) as char
    } else if v < 52 {
        (97 + v - 26) as char
    } else if v < 62 {
        (48 + v - 52) as char
    } else if v == 62 {
        '+'
    } else {
        '/'
    }
}

/// Base64 with the standard alphabet and `=` padding (RFC 4648): each group
/// of three bytes becomes four characters, most significant bits first, and a
/// final group of one or two bytes is padded to four characters with `=`.
pub open spec fn base64_standard(bytes: Seq<u8>) -> Seq<char>
    decreases bytes.len(),
{
    if bytes.len() == 0 {
        Seq::empty()
    } else {
        let a = bytes[0] as int;
        let b = if bytes.len() > 1 { bytes[1] as int } else { 0 };
        let c = if bytes.len() > 2 { bytes[2] as int } else { 0 };
        let group = seq![
            base64_digit(a / 4),
            base64_digit((a % 4) * 16 + b / 16),
            if bytes.len() > 1 { base64_digit((b % 16) * 4 + c / 64) } else { '=' },
            if bytes.len() > 2 { base64_digit(c % 64) } else { '=' },
        ];
        if bytes.len() <= 3 { group } else { group + base64_standard(bytes.skip(3)) }
    }
}

/// `STANDARD.encode`: the bytes in base64 with the standard alphabet and
/// padding, as [`base64_standard`] spells it out.
#[verifier::external_body]
fn base64_encode(bytes: &[u8]) -> (s: String)
    ensures
        s@ == base64_standard(bytes@),
{
    base64::engine::general_purpose::STANDARD.encode(bytes)
}

/// The relay's device id for the peer whose identity key is `identity_pub`:
/// the first listed device whose stored key is that key's base64.
///
/// Matching is on the identity key rather than the Noise static because the
/// static is rotatable and the identity key is the pin.
pub fn find_device(devices: &[DeviceSummary], identity_pub: &[u8]) -> (r: Option<u128>)
    ensures
        match r {
            Some(id) => exists|i: int| 0 <= i < devices@.len()
                && devices@[i].id == id
                && #[trigger] devices@[i].identity_public_key@ == base64_standard(identity_pub@)
                && forall|j: int| 0 <= j < i ==> #[trigger] devices@[j].identity_public_key@ != base64_standard(identity_pub@),
            None => forall|i: int| 0 <= i < devices@.len()
                ==> #[trigger] devices@[i].identity_public_key@ != base64_standard(identity_pub@),
        },
{
    let wanted = base64_encode(identity_pub);
    let mut i: usize = 0;
    while i < devices.len()
        invariant
            i <= devices@.len(),
            wanted@ == base64_standard(identity_pub@),
            forall|j: int| 0 <= j < i ==> #[trigger] devices@[j].identity_public_key@ != base64_standard(identity_pub@),
        decreases devices@.len() - i,
    {
        if devices[i].identity_public_key == wanted {
            return Some(devices[i].id);
        }
        i = i + 1;
    }
    None
}

/// The key material the relay stores for a device. It never verifies these —
/// it holds no trust anchor — it only carries them.
#[derive(Debug, Clone)]
pub struct PublicIdentity {
    pub identity_pub: Vec<u8>,
    pub identity_algorithm: String,
    pub noise_static_pub: [u8; 32],
    pub noise_static_sig: Vec<u8>,
}

/// A device's keys as the relay's enrolment request carries them.
#[derive(Debug, Clone)]
pub struct PeerMaterial {
    pub display_name: String,
    pub identity_public_key: String,
    pub identity_algorithm: String,
    pub noise_static_public_key: String,
    pub noise_static_signature: String,
}

impl PeerMaterial {
    /// The material for `identity` under `display_name`: each key and the
    /// signature as standard base64.
    pub fn from_identity(display_name: &str, identity: &PublicIdentity) -> (m: PeerMaterial)
        ensures
            m.display_name@ == display_name@,
            m.identity_public_key@ == base64_standard(identity.identity_pub@),
            m.identity_algorithm@ == identity.identity_algorithm@,
            m.noise_static_public_key@ == base64_standard(identity.noise_static_pub@),
            m.noise_static_signature@ == base64_standard(identity.noise_static_sig@),
    {
        PeerMaterial {
            display_name: String::from_str(display_name),
            identity_public_key: base64_encode(identity.identity_pub.as_slice()),
            identity_algorithm: identity.identity_algorithm.clone(),
            noise_static_public_key: base64_encode(identity.noise_static_pub.as_slice()),
            noise_static_signature: base64_encode(identity.noise_static_sig.as_slice()),
        }
    }
}

/// Whether an HTTP status is a success (2xx).
pub fn status_is_success(status: u16) -> (b: bool)
    ensures
        b == (200 <= status <= 299),
{
    200 <= status && status <= 299
}

/// What the relay's answer to a device revocation means.
#[derive(Debug, Clone, Copy, PartialEq, Eq)]
pub enum RevokeAnswer {
    /// The relay revoked the device.
    Revoked,
    /// The relay has (or admits to) no such device. The local pin is already
    /// gone, so there is nothing left to reconcile: success in substance.
    NoSuchDevice,
    /// The relay refused; reported, but it never reverses the local unpair.
    Refused,
}

/// Classify the relay's status for `DELETE /v1/devices/{id}`.
pub fn revoke_answer(status: u16) -> (a: RevokeAnswer)
    ensures
        a == if status == 404 { RevokeAnswer::NoSuchDevice }
            else if 200 <= status <= 299 { RevokeAnswer::Revoked }
            else { RevokeAnswer::Refused },
{
    if status == 404 {
        RevokeAnswer::NoSuchDevice
    } else if status_is_success(status) {
        RevokeAnswer::Revoked
    } else {
        RevokeAnswer::Refused
    }
}

/// What the relay supervisor needs to attach.
#[derive(Clone)]
pub struct RelayTarget {
    pub base_url: String,
    pub token: DeviceToken,
}

} // verus!
