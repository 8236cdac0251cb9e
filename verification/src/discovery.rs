//! What the agent advertises over mDNS (`_osprey._tcp`) for its direct-LAN
//! listener.
//!
//! The QR's LAN hints are correct exactly once; a lease renewal or a move
//! between networks invalidates them. mDNS is the durable answer: the phone
//! browses for `_osprey._tcp.local.`, matches the `device_id` TXT record
//! against a peer it has pinned, and uses whatever address the host currently
//! has. Nothing here is trusted — the Noise handshake against the pinned key
//! decides whether the thing at that address is the agent — so the record
//! carries no key material, no account id and no display name.
//!
//! This module decides the registration; the service hands it to the mDNS
//! daemon, restricted to the interfaces it names.

use vstd::prelude::*;
use crate::lan::{IpAddress, SocketAddress, is_private, is_loopback, is_private_spec, is_loopback_spec};
use crate::state::hex_nibble;
use crate::text::join2;

verus! {

/// DNS-SD service type, with the mDNS domain.
pub const SERVICE_TYPE: &'static str = "_osprey._tcp.local.";
/// TXT key carrying the agent's device id.
pub const TXT_DEVICE_ID: &'static str = "device_id";
/// TXT key carrying the record set's schema version.
pub const TXT_VERSION: &'static str = "v";
/// Schema version of the TXT record set.
pub const ADVERT_VERSION: &'static str = "1";

/// Whether a bound address may be advertised: private, and not loopback —
/// publishing `127.0.0.1` to the LAN advertises an address that resolves to
/// the phone.
pub open spec fn advertisable_spec(addr: SocketAddress) -> bool {
    is_private_spec(addr.ip) && !is_loopback_spec(addr.ip)
}

/// The addresses of `bound` that may be advertised, in order.
pub fn advertisable(bound: &[SocketAddress]) -> (r: Vec<SocketAddress>)
    ensures
        r@ == bound@.filter(|a: SocketAddress| advertisable_spec(a)),
{
    let ghost keep = |a: SocketAddress| advertisable_spec(a);
    let mut r: Vec<SocketAddress> = Vec::new();
    let mut i: usize = 0;
    while i < bound.len()
        invariant
            i <= bound@.len(),
            keep == (|a: SocketAddress| advertisable_spec(a)),
            r@ == bound@.subrange(0, i as int).filter(keep),
        decreases bound@.len() - i,
    {
        let a = bound[i];
        proof {
            assert(bound@.subrange(0, i + 1) =~= bound@.subrange(0, i as int).push(a));
            bound@.subrange(0, i as int).lemma_filter_push(a, keep);
        }
        if is_private(a.ip) && !is_loopback(a.ip) {
            r.push(a);
        }
        i = i + 1;
    }
    assert(bound@.subrange(0, bound@.len() as int) =~= bound@);
    r
}

/// The low `count` hex digits of `v`, most significant first, lowercase.
pub open spec fn hex_of(v: nat, count: nat) -> Seq<char>
    decreases count,
{
    if count == 0 { Seq::empty() } else { hex_of(v / 16, (count - 1) as nat).push(hex_nibble((v % 16) as u8)) }
}

proof fn lemma_hex_of_len(v: nat, count: nat)
    ensures
        hex_of(v, count).len() == count,
    decreases count,
{
    if count > 0 {
        lemma_hex_of_len(v / 16, (count - 1) as nat);
    }
}

/// A UUID's simple form: its 128 bits as 32 lowercase hex digits.
pub open spec fn uuid_simple_text(id: u128) -> Seq<char> {
    hex_of(id as nat, 32)
}

/// A UUID's hyphenated form: the simple form grouped 8-4-4-4-12.
pub open spec fn uuid_text(id: u128) -> Seq<char> {
    let s = uuid_simple_text(id);
    s.subrange(0, 8) + "-"@ + s.subrange(8, 12) + "-"@ + s.subrange(12, 16) + "-"@
        + s.subrange(16, 20) + "-"@ + s.subrange(20, 32)
}

/// `Uuid::from_u128(id).simple().to_string()`: 32 lowercase hex digits, most
/// significant first.
#[verifier::external_body]
fn uuid_simple(id: u128) -> (s: String)
    ensures
        s@ == uuid_simple_text(id),
{
    uuid::Uuid::from_u128(id).simple().to_string()
}

/// `Uuid::from_u128(id).to_string()`: the lowercase hyphenated form.
#[verifier::external_body]
pub(crate) fn uuid_string(id: u128) -> (s: String)
    ensures
        s@ == uuid_text(id),
{
    uuid::Uuid::from_u128(id).to_string()
}

/// The instance label for device `id`: `osprey-` and the first twelve hex
/// digits of its UUID. Short, stable and collision-resistant.
pub open spec fn label_of(id: u128) -> Seq<char> {
    "osprey-"@ + uuid_simple_text(id).subrange(0, 12)
}

/// The instance label for device `device_id`.
pub fn label(device_id: u128) -> (s: String)
    ensures
        s@ == label_of(device_id),
{
    let simple = uuid_simple(device_id);
    proof { lemma_hex_of_len(device_id as nat, 32); }
    let head = simple.as_str().substring_char(0, 12);
    join2("osprey-", head)
}

/// A DNS-SD registration, as the mDNS daemon takes it.
#[derive(Debug, Clone)]
pub struct ServicePlan {
    pub service_type: String,
    pub instance: String,
    pub host_name: String,
    pub addresses: Vec<IpAddress>,
    pub port: u16,
    /// The TXT record, key then value.
    pub properties: Vec<(String, String)>,
}

/// Why no registration could be built.
#[derive(Debug, Clone, Copy, PartialEq, Eq)]
pub enum DiscoveryError {
    /// There is no address to advertise.
    NoAddress,
    /// One DNS-SD record has one port, and the listener bound `odd` on a port
    /// other than `port`, the first address's. A broken assumption elsewhere,
    /// not something to paper over by picking one.
    MixedPorts { odd: SocketAddress, port: u16 },
}

/// Build the registration for device `device_id` on `addrs`: type
/// [`SERVICE_TYPE`], instance [`label_of`], host `<instance>.local.`, the
/// addresses' IPs on their common port, and a TXT record of exactly the
/// schema version and the device id.
///
/// Pure: no socket is opened and no packet is sent.
pub fn service_info(device_id: u128, addrs: &[SocketAddress]) -> (r: Result<ServicePlan, DiscoveryError>)
    ensures
        addrs@.len() == 0 ==> r == Err::<ServicePlan, DiscoveryError>(DiscoveryError::NoAddress),
        addrs@.len() > 0 ==> {
            let port = addrs@[0].port;
            match r {
                Err(e) => exists|i: int| 0 <= i < addrs@.len() && addrs@[i].port != port
                    && (forall|j: int| 0 <= j < i ==> addrs@[j].port == port)
                    && e == DiscoveryError::MixedPorts { odd: addrs@[i], port },
                Ok(plan) => {
                    &&& forall|i: int| 0 <= i < addrs@.len() ==> addrs@[i].port == port
                    &&& plan.service_type@ == SERVICE_TYPE@
                    &&& plan.instance@ == label_of(device_id)
                    &&& plan.host_name@ == label_of(device_id) + ".local."@
                    &&& plan.addresses@ == addrs@.map_values(|a: SocketAddress| a.ip)
                    &&& plan.port == port
                    &&& plan.properties@.len() == 2
                    &&& plan.properties@[0].0@ == TXT_VERSION@
                    &&& plan.properties@[0].1@ == ADVERT_VERSION@
                    &&& plan.properties@[1].0@ == TXT_DEVICE_ID@
                    &&& plan.properties@[1].1@ == uuid_text(device_id)
                },
            }
        },
{
    if addrs.len() == 0 {
        return Err(DiscoveryError::NoAddress);
    }
    let port = addrs[0].port;
    let mut ips: Vec<IpAddress> = Vec::new();
    let mut i: usize = 0;
    while i < addrs.len()
        invariant
            0 < addrs@.len(),
            port == addrs@[0].port,
            i <= addrs@.len(),
            forall|j: int| 0 <= j < i ==> addrs@[j].port == port,
            ips@ == addrs@.subrange(0, i as int).map_values(|a: SocketAddress| a.ip),
        decreases addrs@.len() - i,
    {
        if addrs[i].port != port {
            return Err(DiscoveryError::MixedPorts { odd: addrs[i], port });
        }
        ips.push(addrs[i].ip);
        assert(addrs@.subrange(0, i + 1).map_values(|a: SocketAddress| a.ip)
            =~= addrs@.subrange(0, i as int).map_values(|a: SocketAddress| a.ip).push(addrs@[i as int].ip));
        i = i + 1;
    }
    assert(addrs@.subrange(0, addrs@.len() as int) =~= addrs@);
    let instance = label(device_id);
    let host_name = join2(instance.as_str(), ".local.");
    let mut properties: Vec<(String, String)> = Vec::new();
    properties.push((String::from_str(TXT_VERSION), String::from_str(ADVERT_VERSION)));
    properties.push((String::from_str(TXT_DEVICE_ID), uuid_string(device_id)));
    Ok(ServicePlan {
        service_type: String::from_str(SERVICE_TYPE),
        instance,
        host_name,
        addresses: ips,
        port,
        properties,
    })
}

/// What to publish for a listener bound on `bound`: nothing when no
/// address may be advertised (a loopback-only host, CI) — a normal outcome,
/// not a failure — otherwise the registration for the advertisable ones.
pub fn start_plan(device_id: u128, bound: &[SocketAddress]) -> (r: Result<Option<ServicePlan>, DiscoveryError>)
    ensures
        bound@.filter(|a: SocketAddress| advertisable_spec(a)).len() == 0 ==> r == Ok::<Option<ServicePlan>, DiscoveryError>(None),
        bound@.filter(|a: SocketAddress| advertisable_spec(a)).len() > 0 ==> match r {
            Ok(Some(plan)) => plan.addresses@ == bound@.filter(|a: SocketAddress| advertisable_spec(a)).map_values(|a: SocketAddress| a.ip)
                && plan.instance@ == label_of(device_id),
            Ok(None) => false,
            Err(e) => e is MixedPorts,
        },
{
    let addrs = advertisable(bound);
    if addrs.len() == 0 {
        return Ok(None);
    }
    match service_info(device_id, addrs.as_slice()) {
        Ok(plan) => Ok(Some(plan)),
        Err(e) => Err(e),
    }
}

} // verus!
