//! Which addresses the direct-LAN listener may bind, and which peers it may
//! serve.
//!
//! The agent makes outbound connections only on every relay and WAN path; the
//! one exception is the direct-LAN rung of the connection ladder, where the
//! phone initiates. That exception is enforced here rather than documented
//! and hoped for:
//!
//! * only *private* local addresses are bound, never a wildcard, because a
//!   wildcard bind on a multi-homed host is a WAN-reachable port that no
//!   configuration file shows;
//! * a peer whose own address is not private is dropped, because a private
//!   bind can still be reached from a public source through destination NAT.

use vstd::prelude::*;

verus! {

/// Default LAN port: fixed, so that a firewall rule for the private profile
/// can name one port.
pub const DEFAULT_LAN_PORT: u16 = 47010;

/// An IP address: IPv4 as its 32-bit value, IPv6 as its 128-bit value, both
/// most significant octet first.
#[derive(Debug, Clone, Copy, PartialEq, Eq, Structural)]
pub enum IpAddress {
    V4(u32),
    V6(u128),
}

/// An IP address and a port.
#[derive(Debug, Clone, Copy, PartialEq, Eq, Structural)]
pub struct SocketAddress {
    pub ip: IpAddress,
    pub port: u16,
}

/// The 32-bit value of the IPv4 address `a.b.c.d`.
pub open spec fn v4_value(a: u8, b: u8, c: u8, d: u8) -> int {
    a * 0x100_0000 + b * 0x1_0000 + c * 0x100 + d
}

impl IpAddress {
    /// The IPv4 address `a.b.c.d`.
    pub fn v4(a: u8, b: u8, c: u8, d: u8) -> (ip: IpAddress)
        ensures
            ip == IpAddress::V4(v4_value(a, b, c, d) as u32),
    {
        IpAddress::V4((a as u32) * 0x100_0000 + (b as u32) * 0x1_0000 + (c as u32) * 0x100 + (d as u32))
    }

    /// The IPv6 address with these eight 16-bit groups, first group most
    /// significant.
    pub fn v6(groups: [u16; 8]) -> (ip: IpAddress)
        ensures
            ip == IpAddress::V6(v6_value(groups@) as u128),
    {
        let mut value: u128 = 0;
        let mut i: usize = 0;
        while i < 8
            invariant
                i <= 8,
                groups@.len() == 8,
                value == v6_value(groups@.subrange(0, i as int)),
                value < pow65536(i as nat),
            decreases 8 - i,
        {
            proof {
                assert(groups@.subrange(0, i + 1).drop_last() =~= groups@.subrange(0, i as int));
                assert(pow65536((i + 1) as nat) == pow65536(i as nat) * 0x1_0000);
                assert(value * 0x1_0000 + groups@[i as int] < pow65536(i as nat) * 0x1_0000) by (nonlinear_arith)
                    requires value < pow65536(i as nat), groups@[i as int] < 0x1_0000;
                lemma_pow65536_bound(i as nat);
            }
            value = value * 0x1_0000 + groups[i] as u128;
            i = i + 1;
        }
        assert(groups@.subrange(0, 8) =~= groups@);
        IpAddress::V6(value)
    }
}

/// `65536^n`.
pub open spec fn pow65536(n: nat) -> nat
    decreases n,
{
    if n == 0 { 1 } else { pow65536((n - 1) as nat) * 0x1_0000 }
}

proof fn lemma_pow65536_bound(n: nat)
    requires
        n < 8,
    ensures
        pow65536(n + 1) <= 0x1_0000_0000_0000_0000_0000_0000_0000_0000,
{
    reveal_with_fuel(pow65536, 9);
    assert(pow65536(8) == 0x1_0000_0000_0000_0000_0000_0000_0000_0000);
    lemma_pow65536_monotone(n + 1, 8);
}

proof fn lemma_pow65536_monotone(a: nat, b: nat)
    requires
        a <= b,
    ensures
        pow65536(a) <= pow65536(b),
    decreases b - a,
{
    if a < b {
        lemma_pow65536_monotone(a, (b - 1) as nat);
        assert(pow65536((b - 1) as nat) <= pow65536((b - 1) as nat) * 0x1_0000) by (nonlinear_arith);
    }
}

/// The value of an IPv6 address from its groups, first group most significant.
pub open spec fn v6_value(groups: Seq<u16>) -> int
    decreases groups.len(),
{
    if groups.len() == 0 { 0 } else { v6_value(groups.drop_last()) * 0x1_0000 + groups.last() }
}

/// `127.0.0.0/8`, `::1`.
pub open spec fn is_loopback_spec(ip: IpAddress) -> bool {
    match ip {
        IpAddress::V4(a) => 0x7f00_0000 <= a <= 0x7fff_ffff,
        IpAddress::V6(a) => a == 1,
    }
}

/// Private IPv4: loopback (`127.0.0.0/8`), RFC 1918 (`10.0.0.0/8`,
/// `172.16.0.0/12`, `192.168.0.0/16`) and link-local (`169.254.0.0/16`).
/// Carrier-grade NAT (`100.64.0.0/10`) is not private: a neighbouring
/// subscriber is not a peer the operator has physical access to.
pub open spec fn is_private_v4_spec(a: u32) -> bool {
    ||| 0x7f00_0000 <= a <= 0x7fff_ffff
    ||| 0x0a00_0000 <= a <= 0x0aff_ffff
    ||| 0xac10_0000 <= a <= 0xac1f_ffff
    ||| 0xc0a8_0000 <= a <= 0xc0a8_ffff
    ||| 0xa9fe_0000 <= a <= 0xa9fe_ffff
}

/// The first address of `fc00::/7` (unique-local).
pub const V6_UNIQUE_LOCAL_FIRST: u128 = 0xfc00_0000_0000_0000_0000_0000_0000_0000;
/// The first address past `fc00::/7`.
pub const V6_UNIQUE_LOCAL_END: u128 = 0xfe00_0000_0000_0000_0000_0000_0000_0000;
/// The first address of `fe80::/10` (link-local).
pub const V6_LINK_LOCAL_FIRST: u128 = 0xfe80_0000_0000_0000_0000_0000_0000_0000;
/// The first address past `fe80::/10`.
pub const V6_LINK_LOCAL_END: u128 = 0xfec0_0000_0000_0000_0000_0000_0000_0000;
/// The first IPv4-mapped address, `::ffff:0.0.0.0`.
pub const V6_MAPPED_FIRST: u128 = 0xffff_0000_0000;
/// The first address past `::ffff:0:0/96`.
pub const V6_MAPPED_END: u128 = 0x1_0000_0000_0000;

/// Private IPv6: loopback, unique-local (`fc00::/7`), link-local
/// (`fe80::/10`), and an IPv4-mapped address (`::ffff:a.b.c.d`) whose IPv4
/// address is private, since a dual-stack socket reports IPv4 peers that way
/// and a public one must not be admitted through the IPv6 branch.
pub open spec fn is_private_v6_spec(a: u128) -> bool {
    ||| a == 1
    ||| V6_UNIQUE_LOCAL_FIRST <= a < V6_UNIQUE_LOCAL_END
    ||| V6_LINK_LOCAL_FIRST <= a < V6_LINK_LOCAL_END
    ||| (V6_MAPPED_FIRST <= a < V6_MAPPED_END && is_private_v4_spec((a - V6_MAPPED_FIRST) as u32))
}

/// Whether `ip` is unreachable from the public internet.
pub open spec fn is_private_spec(ip: IpAddress) -> bool {
    match ip {
        IpAddress::V4(a) => is_private_v4_spec(a),
        IpAddress::V6(a) => is_private_v6_spec(a),
    }
}

fn is_private_v4(a: u32) -> (b: bool)
    ensures
        b == is_private_v4_spec(a),
{
    (0x7f00_0000 <= a && a <= 0x7fff_ffff)
        || (0x0a00_0000 <= a && a <= 0x0aff_ffff)
        || (0xac10_0000 <= a && a <= 0xac1f_ffff)
        || (0xc0a8_0000 <= a && a <= 0xc0a8_ffff)
        || (0xa9fe_0000 <= a && a <= 0xa9fe_ffff)
}

fn is_private_v6(a: u128) -> (b: bool)
    ensures
        b == is_private_v6_spec(a),
{
    if a == 1 {
        return true;
    }
    if (V6_UNIQUE_LOCAL_FIRST <= a && a < V6_UNIQUE_LOCAL_END) || (V6_LINK_LOCAL_FIRST <= a && a < V6_LINK_LOCAL_END) {
        return true;
    }
    if V6_MAPPED_FIRST <= a && a < V6_MAPPED_END {
        is_private_v4((a - V6_MAPPED_FIRST) as u32)
    } else {
        false
    }
}

/// Whether `ip` is unreachable from the public internet.
///
/// Loopback counts: it is the narrowest possible scope.
pub fn is_private(ip: IpAddress) -> (b: bool)
    ensures
        b == is_private_spec(ip),
{
    match ip {
        IpAddress::V4(a) => is_private_v4(a),
        IpAddress::V6(a) => is_private_v6(a),
    }
}

/// Whether `ip` is a loopback address.
pub fn is_loopback(ip: IpAddress) -> (b: bool)
    ensures
        b == is_loopback_spec(ip),
{
    match ip {
        IpAddress::V4(a) => 0x7f00_0000 <= a && a <= 0x7fff_ffff,
        IpAddress::V6(a) => a == 1,
    }
}

/// `s` without repeats, each address kept where it first occurs.
pub open spec fn first_occurrences(s: Seq<IpAddress>) -> Seq<IpAddress>
    decreases s.len(),
{
    if s.len() == 0 {
        Seq::empty()
    } else {
        let d = first_occurrences(s.drop_last());
        if d.contains(s.last()) { d } else { d.push(s.last()) }
    }
}

/// The private addresses of `found`, each once, the non-loopback ones first
/// and loopback last; otherwise in the order found.
pub open spec fn private_addresses_of(found: Seq<IpAddress>) -> Seq<IpAddress> {
    first_occurrences(found.filter(|ip: IpAddress| is_private_spec(ip) && !is_loopback_spec(ip)))
        + first_occurrences(found.filter(|ip: IpAddress| is_private_spec(ip) && is_loopback_spec(ip)))
}

fn contains_address(v: &Vec<IpAddress>, ip: IpAddress) -> (b: bool)
    ensures
        b == v@.contains(ip),
{
    let mut i: usize = 0;
    while i < v.len()
        invariant
            i <= v@.len(),
            forall|k: int| 0 <= k < i ==> v@[k] != ip,
        decreases v@.len() - i,
    {
        if v[i] == ip {
            assert(v@[i as int] == ip);
            return true;
        }
        i = i + 1;
    }
    false
}

/// The distinct private addresses of `found` whose loopback-ness is
/// `want_loopback`, in the order first found.
fn first_private(found: &[IpAddress], want_loopback: bool) -> (out: Vec<IpAddress>)
    ensures
        out@ == first_occurrences(found@.filter(
            |ip: IpAddress| is_private_spec(ip) && is_loopback_spec(ip) == want_loopback)),
{
    let ghost keep = |ip: IpAddress| is_private_spec(ip) && is_loopback_spec(ip) == want_loopback;
    let mut out: Vec<IpAddress> = Vec::new();
    let mut i: usize = 0;
    assert(found@.subrange(0, 0).filter(keep) =~= Seq::<IpAddress>::empty());
    while i < found.len()
        invariant
            i <= found@.len(),
            keep == (|ip: IpAddress| is_private_spec(ip) && is_loopback_spec(ip) == want_loopback),
            out@ == first_occurrences(found@.subrange(0, i as int).filter(keep)),
        decreases found@.len() - i,
    {
        let ip = found[i];
        proof {
            assert(found@.subrange(0, i + 1) =~= found@.subrange(0, i as int).push(ip));
            found@.subrange(0, i as int).lemma_filter_push(ip, keep);
        }
        if is_private(ip) && is_loopback(ip) == want_loopback {
            let ghost f = found@.subrange(0, i as int).filter(keep);
            assert(f.push(ip).drop_last() =~= f);
            if !contains_address(&out, ip) {
                out.push(ip);
            }
        }
        i = i + 1;
    }
    assert(found@.subrange(0, found@.len() as int) =~= found@);
    out
}

/// Every private address among `found` (the host's interface addresses, as
/// enumerated and ordered by the caller), each once, loopback last.
///
/// Loopback goes last so that the QR's LAN hints lead with an address a phone
/// on the same network can actually reach.
pub fn private_addresses(found: &[IpAddress]) -> (r: Vec<IpAddress>)
    ensures
        r@ == private_addresses_of(found@),
        forall|i: int| 0 <= i < r@.len() ==> #[trigger] is_private_spec(r@[i]),
{
    let mut r = first_private(found, false);
    let mut tail = first_private(found, true);
    proof {
        assert((|ip: IpAddress| is_private_spec(ip) && is_loopback_spec(ip) == false)
            =~= (|ip: IpAddress| is_private_spec(ip) && !is_loopback_spec(ip)));
        assert((|ip: IpAddress| is_private_spec(ip) && is_loopback_spec(ip) == true)
            =~= (|ip: IpAddress| is_private_spec(ip) && is_loopback_spec(ip)));
    }
    let ghost head = r@;
    r.append(&mut tail);
    proof {
        assert forall|i: int| 0 <= i < r@.len() implies #[trigger] is_private_spec(r@[i]) by {
            lemma_first_occurrences_from(found@.filter(|ip: IpAddress| is_private_spec(ip) && !is_loopback_spec(ip)));
            lemma_first_occurrences_from(found@.filter(|ip: IpAddress| is_private_spec(ip) && is_loopback_spec(ip)));
            if i < head.len() {
                let x = r@[i];
                assert(head.contains(x));
                let fs = found@.filter(|ip: IpAddress| is_private_spec(ip) && !is_loopback_spec(ip));
                assert(fs.contains(x));
                let j = choose|j: int| 0 <= j < fs.len() && fs[j] == x;
                assert((|ip: IpAddress| is_private_spec(ip) && !is_loopback_spec(ip))(fs[j]));
            } else {
                let x = r@[i];
                let fs = found@.filter(|ip: IpAddress| is_private_spec(ip) && is_loopback_spec(ip));
                assert(r@.subrange(head.len() as int, r@.len() as int).contains(x)) by {
                    assert(r@.subrange(head.len() as int, r@.len() as int)[i - head.len()] == x);
                }
                assert(fs.contains(x));
                let j = choose|j: int| 0 <= j < fs.len() && fs[j] == x;
                assert((|ip: IpAddress| is_private_spec(ip) && is_loopback_spec(ip))(fs[j]));
            }
        }
    }
    r
}

/// Every address `first_occurrences` keeps comes from the sequence.
proof fn lemma_first_occurrences_from(s: Seq<IpAddress>)
    ensures
        forall|x: IpAddress| first_occurrences(s).contains(x) ==> s.contains(x),
    decreases s.len(),
{
    if s.len() > 0 {
        lemma_first_occurrences_from(s.drop_last());
        assert forall|x: IpAddress| first_occurrences(s).contains(x) implies s.contains(x) by {
            if first_occurrences(s.drop_last()).contains(x) {
                assert(s.drop_last().contains(x));
                let j = choose|j: int| 0 <= j < s.drop_last().len() && s.drop_last()[j] == x;
                assert(s[j] == x);
            } else {
                assert(x == s.last());
                assert(s[s.len() - 1] == x);
            }
        }
    }
}

/// The wildcard addresses `0.0.0.0` and `::` are never private, so the
/// listener, which binds only private addresses, never binds a wildcard.
pub proof fn a_wildcard_is_never_private()
    ensures
        !is_private_spec(IpAddress::V4(0)),
        !is_private_spec(IpAddress::V6(0)),
{
}

/// Which IPv4 addresses are private, by their octets `o1.o2.o3.o4`: exactly
/// loopback `127/8`, the RFC 1918 blocks `10/8`, `172.16/12` and `192.168/16`,
/// and link-local `169.254/16`. Everything else, carrier-grade NAT included,
/// is public.
pub proof fn private_v4_is_exactly_the_private_blocks(o1: u8, o2: u8, o3: u8, o4: u8)
    ensures
        is_private_spec(IpAddress::V4(v4_value(o1, o2, o3, o4) as u32)) <==> {
            ||| o1 == 127
            ||| o1 == 10
            ||| (o1 == 172 && 16 <= o2 <= 31)
            ||| (o1 == 192 && o2 == 168)
            ||| (o1 == 169 && o2 == 254)
        },
{
    let v = v4_value(o1, o2, o3, o4);
    assert(0 <= o3 * 0x100 + o4 <= 0xffff) by (nonlinear_arith)
        requires o3 <= 255, o4 <= 255, 0 <= o3, 0 <= o4;
    assert(0 <= o2 * 0x1_0000 + o3 * 0x100 + o4 <= 0xff_ffff) by (nonlinear_arith)
        requires o2 <= 255, 0 <= o2, 0 <= o3 * 0x100 + o4 <= 0xffff;
    assert(v < 0x1_0000_0000) by (nonlinear_arith)
        requires v == o1 * 0x100_0000 + (o2 * 0x1_0000 + o3 * 0x100 + o4), o1 <= 255,
            0 <= o2 * 0x1_0000 + o3 * 0x100 + o4 <= 0xff_ffff;
    assert(v == o1 * 0x100_0000 + o2 * 0x1_0000 + o3 * 0x100 + o4);
}

/// Which IPv6 addresses are private: exactly `::1`, unique-local `fc00::/7`
/// (the top seven bits `1111110`), link-local `fe80::/10` (the top ten bits
/// `1111111010`), and the IPv4-mapped `::ffff:0:0/96` addresses whose IPv4
/// part is private.
pub proof fn private_v6_is_exactly_the_private_blocks(a: u128)
    ensures
        is_private_spec(IpAddress::V6(a)) <==> {
            ||| a == 1
            ||| a / 0x200_0000_0000_0000_0000_0000_0000_0000 == 0x7e
            ||| a / 0x40_0000_0000_0000_0000_0000_0000_0000 == 0x3fa
            ||| (a / 0x1_0000_0000 == 0xffff && is_private_spec(IpAddress::V4((a % 0x1_0000_0000) as u32)))
        },
{
}

/// Whether the listener may serve a peer connecting from `peer`: only a
/// private address is admitted, whatever address it reached.
pub fn admits_peer(peer: SocketAddress) -> (b: bool)
    ensures
        b == is_private_spec(peer.ip),
{
    is_private(peer.ip)
}

/// Why the LAN listener could not start.
#[derive(Debug, Clone, Copy, PartialEq, Eq)]
pub enum LanError {
    /// The host has no private or link-local address; the agent will not bind
    /// a publicly routable one instead.
    NoPrivateAddress,
    /// Every private address failed to bind on this port.
    NothingBound { port: u16 },
}

/// The listener's binding plan: the port to ask for on the next address, and
/// what has been bound so far.
///
/// Asking for port 0 takes an ephemeral port on the first address and reuses
/// that number on the rest, so the QR advertises one port rather than one per
/// interface. One unusable interface does not take down the whole set.
#[derive(Debug, Clone)]
pub struct BindPlan {
    pub requested: u16,
    pub next_port: u16,
    pub bound: Vec<SocketAddress>,
}

impl BindPlan {
    /// Plan to bind every candidate on `port`; refused when there is no
    /// private candidate at all.
    pub fn new(port: u16, candidates: &[IpAddress]) -> (r: Result<BindPlan, LanError>)
        ensures
            candidates@.len() == 0 <==> r is Err,
            r matches Err(e) ==> e == LanError::NoPrivateAddress,
            r matches Ok(p) ==> p.requested == port && p.next_port == port && p.bound@.len() == 0,
    {
        if candidates.len() == 0 {
            Err(LanError::NoPrivateAddress)
        } else {
            Ok(BindPlan { requested: port, next_port: port, bound: Vec::new() })
        }
    }

    /// Record that an address was bound and the socket reports `actual`.
    pub fn record(&mut self, actual: SocketAddress)
        ensures
            final(self).bound@ == old(self).bound@.push(actual),
            final(self).requested == old(self).requested,
            final(self).next_port == if old(self).next_port == 0 { actual.port } else { old(self).next_port },
    {
        if self.next_port == 0 {
            self.next_port = actual.port;
        }
        self.bound.push(actual);
    }

    /// The addresses bound, or the error when none was.
    pub fn finish(self) -> (r: Result<Vec<SocketAddress>, LanError>)
        ensures
            self.bound@.len() == 0 ==> r == Err::<Vec<SocketAddress>, LanError>(LanError::NothingBound { port: self.requested }),
            self.bound@.len() > 0 ==> (r matches Ok(v) && v@ == self.bound@),
    {
        if self.bound.len() == 0 {
            Err(LanError::NothingBound { port: self.requested })
        } else {
            Ok(self.bound)
        }
    }
}

} // verus!
