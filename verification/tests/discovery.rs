use std::collections::HashMap;

use osprey_svc::discovery::{
    advertisable, label, service_info, start_plan, DiscoveryError, ADVERT_VERSION,
    SERVICE_TYPE, TXT_DEVICE_ID, TXT_VERSION,
};
use osprey_svc::lan::{IpAddress, SocketAddress};

fn device_id() -> u128 {
    uuid::Uuid::parse_str("3f2504e0-4f89-41d3-9a0c-0305e82c3301").expect("fixed uuid").as_u128()
}

fn addr(a: u8, b: u8, c: u8, d: u8, port: u16) -> SocketAddress {
    SocketAddress { ip: IpAddress::v4(a, b, c, d), port }
}

fn addr6(groups: [u16; 8], port: u16) -> SocketAddress {
    SocketAddress { ip: IpAddress::v6(groups), port }
}

#[test]
fn the_registration_has_the_expected_type_port_and_txt_records() {
    let info = service_info(device_id(), &[addr(192, 168, 1, 20, 47010)]).expect("build");
    assert_eq!(info.service_type, SERVICE_TYPE);
    assert_eq!(info.port, 47010);
    let device = info.properties.iter().find(|(k, _)| k == TXT_DEVICE_ID).map(|(_, v)| v.as_str());
    assert_eq!(device, Some("3f2504e0-4f89-41d3-9a0c-0305e82c3301"), "a paired phone matches on this field alone");
    let version = info.properties.iter().find(|(k, _)| k == TXT_VERSION).map(|(_, v)| v.as_str());
    assert_eq!(version, Some(ADVERT_VERSION));
    let properties: HashMap<String, String> = info.properties.iter().cloned().collect();
    let registration =
        mdns_sd::ServiceInfo::new(&info.service_type, &info.instance, &info.host_name, "192.168.1.20", info.port, properties)
            .expect("the daemon accepts the registration");
    assert_eq!(registration.get_fullname(), format!("osprey-3f2504e04f89.{SERVICE_TYPE}"));
    assert_eq!(info.host_name, "osprey-3f2504e04f89.local.");
    assert!(info.addresses.contains(&IpAddress::v4(192, 168, 1, 20)));
}

#[test]
fn the_txt_record_carries_nothing_beyond_the_two_documented_keys() {
    let info = service_info(device_id(), &[addr(10, 0, 0, 5, 47010)]).expect("build");
    assert_eq!(info.properties.len(), 2, "an advertisement is unauthenticated, so it must leak nothing extra");
}

#[test]
fn only_private_non_loopback_addresses_are_advertised() {
    let link_local = addr6([0xfe80, 0, 0, 0, 0, 0, 0, 1], 47010);
    let bound = [
        addr(127, 0, 0, 1, 47010),
        addr6([0, 0, 0, 0, 0, 0, 0, 1], 47010),
        addr(192, 168, 1, 20, 47010),
        link_local,
        addr(8, 8, 8, 8, 47010),
    ];
    assert_eq!(advertisable(&bound), vec![addr(192, 168, 1, 20, 47010), link_local]);
}

#[test]
fn a_loopback_only_host_advertises_nothing_rather_than_advertising_itself() {
    assert!(advertisable(&[addr(127, 0, 0, 1, 47010)]).is_empty());
    assert!(start_plan(device_id(), &[addr(127, 0, 0, 1, 47010)]).expect("must not fail").is_none());
}

#[test]
fn mixed_ports_are_an_error_rather_than_a_silently_dropped_address() {
    let bound = [addr(192, 168, 1, 20, 47010), addr(10, 0, 0, 5, 47011)];
    assert_eq!(
        service_info(device_id(), &bound).err(),
        Some(DiscoveryError::MixedPorts { odd: addr(10, 0, 0, 5, 47011), port: 47010 })
    );
}

#[test]
fn no_address_is_an_error_rather_than_an_empty_registration() {
    assert_eq!(service_info(device_id(), &[]).err(), Some(DiscoveryError::NoAddress));
}

#[test]
fn the_label_and_uuid_text_match_the_uuid_crate() {
    let id = uuid::Uuid::new_v4();
    let plan = service_info(id.as_u128(), &[addr(10, 0, 0, 1, 1)]).expect("plan");
    assert_eq!(plan.properties[1].1, id.to_string());
    assert_eq!(label(id.as_u128()), format!("osprey-{}", &id.simple().to_string()[..12]));
}

#[test]
fn a_plan_covers_the_advertisable_addresses() {
    let plan = start_plan(device_id(), &[addr(127, 0, 0, 1, 1), addr(10, 0, 0, 5, 1)])
        .expect("plan")
        .expect("something to advertise");
    assert_eq!(plan.addresses, vec![IpAddress::v4(10, 0, 0, 5)]);
}
