use osprey_svc::lan::{
    admits_peer, is_loopback, is_private, private_addresses, BindPlan, IpAddress, LanError,
    SocketAddress,
};

/// An IPv6 address from its text, for the forms these tests use: groups of
/// hex, an optional `::`, and an optional dotted IPv4 tail.
fn v6(text: &str) -> IpAddress {
    let (head, tail) = match text.split_once("::") {
        Some((h, t)) => (h, Some(t)),
        None => (text, None),
    };
    let groups = |part: &str| -> Vec<u16> {
        if part.is_empty() {
            return Vec::new();
        }
        let mut out = Vec::new();
        for piece in part.split(':') {
            if piece.contains('.') {
                let o: Vec<u16> = piece.split('.').map(|x| x.parse().expect("octet")).collect();
                out.push(o[0] << 8 | o[1]);
                out.push(o[2] << 8 | o[3]);
            } else {
                out.push(u16::from_str_radix(piece, 16).expect("group"));
            }
        }
        out
    };
    let front = groups(head);
    let back = tail.map(groups).unwrap_or_default();
    let mut all = [0u16; 8];
    all[..front.len()].copy_from_slice(&front);
    all[8 - back.len()..].copy_from_slice(&back);
    IpAddress::v6(all)
}

fn v4(text: &str) -> IpAddress {
    let o: Vec<u8> = text.split('.').map(|x| x.parse().expect("octet")).collect();
    IpAddress::v4(o[0], o[1], o[2], o[3])
}

#[test]
fn rfc1918_link_local_and_loopback_are_private() {
    for ip in ["10.0.0.1", "172.16.5.4", "192.168.1.20", "169.254.7.7", "127.0.0.1"] {
        assert!(is_private(v4(ip)), "{ip} should be private");
    }
    for ip in ["::1", "fd00::1", "fe80::1", "::ffff:192.168.0.1"] {
        assert!(is_private(v6(ip)), "{ip} should be private");
    }
}

#[test]
fn public_and_cgnat_addresses_are_not_private() {
    for ip in ["8.8.8.8", "1.1.1.1", "172.32.0.1", "100.64.0.1", "0.0.0.0"] {
        assert!(!is_private(v4(ip)), "{ip} should not be private");
    }
    for ip in ["2606:4700::1111", "::ffff:8.8.8.8", "::", "fec0::1"] {
        assert!(!is_private(v6(ip)), "{ip} should not be private");
    }
}

#[test]
fn the_constructors_match_the_standard_encoding() {
    assert_eq!(v4("192.168.1.20"), IpAddress::V4(0xc0a8_0114));
    assert_eq!(v6("fe80::1"), IpAddress::V6(0xfe80_0000_0000_0000_0000_0000_0000_0001));
}

#[test]
fn private_addresses_drop_public_ones_and_put_loopback_last() {
    let found = [v4("127.0.0.1"), v4("8.8.8.8"), v4("192.168.1.20"), v6("::1"), v4("192.168.1.20"), v6("fe80::1")];
    assert_eq!(
        private_addresses(&found),
        vec![v4("192.168.1.20"), v6("fe80::1"), v4("127.0.0.1"), v6("::1")]
    );
    assert!(is_loopback(v6("::1")));
    assert!(!is_loopback(v6("fe80::1")));
}

#[test]
fn a_loopback_peer_is_accepted() {
    assert!(admits_peer(SocketAddress { ip: v4("127.0.0.1"), port: 50_000 }));
    assert!(!admits_peer(SocketAddress { ip: v4("203.0.113.9"), port: 50_000 }));
}

#[test]
fn port_zero_is_chosen_once_and_reused() {
    assert_eq!(BindPlan::new(0, &[]).err(), Some(LanError::NoPrivateAddress));
    let mut plan = BindPlan::new(0, &[v4("127.0.0.1"), v4("10.0.0.2")]).expect("plan");
    assert_eq!(plan.next_port, 0);
    plan.record(SocketAddress { ip: v4("127.0.0.1"), port: 41_000 });
    assert_eq!(plan.next_port, 41_000);
    plan.record(SocketAddress { ip: v4("10.0.0.2"), port: 41_000 });
    assert_eq!(plan.finish().expect("bound").len(), 2);
    let empty = BindPlan::new(47_010, &[v4("10.0.0.2")]).expect("plan");
    assert_eq!(empty.finish().err(), Some(LanError::NothingBound { port: 47_010 }));
}
