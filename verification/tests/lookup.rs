//! Lookups against a device-control layer played by the test.

use arp_resolve::error::ResolveError;
use arp_resolve::hardware::HardwareAddress;
use arp_resolve::query::{interpret_reply, ip_to_mac, prepare_query, DeviceReply, IpAddress, Platform};
use arp_resolve::record::{ArpRequest, ATF_COM, SIOCGARP};
use libc::{ENODEV, EPERM};

/// A kernel whose table holds a complete entry with this hardware address.
fn complete_entry(mac: [u8; 6]) -> impl FnOnce(u64, ArpRequest) -> DeviceReply {
    move |_operation, mut record| {
        record.hardware_address.family = 1;
        record.hardware_address.data[..6].copy_from_slice(&mac);
        record.flags = ATF_COM;
        Ok(record)
    }
}

#[test]
fn complete_entry_is_resolved() {
    let mac = [0xAA, 0xBB, 0xCC, 0xDD, 0xEE, 0xFF];
    let found = ip_to_mac(Platform::Linux, IpAddress::V4([192, 168, 1, 5]), b"eth0", complete_entry(mac));
    assert_eq!(found, Ok(Some(HardwareAddress::new([0xAA, 0xBB, 0xCC, 0xDD, 0xEE, 0xFF]))));
}

#[test]
fn incomplete_entry_is_unresolved() {
    let found = ip_to_mac(
        Platform::Linux,
        IpAddress::V4([192, 168, 1, 5]),
        b"eth0",
        |_operation, record| Ok(record),
    );
    assert_eq!(found, Ok(None));
}

#[test]
fn incomplete_entry_with_stale_bytes_is_unresolved() {
    let found = ip_to_mac(
        Platform::Linux,
        IpAddress::V4([192, 168, 1, 5]),
        b"eth0",
        |_operation, mut record| {
            record.hardware_address.data[..6].copy_from_slice(&[1, 2, 3, 4, 5, 6]);
            record.flags = 0x04;
            Ok(record)
        },
    );
    assert_eq!(found, Ok(None));
}

#[test]
fn failed_call_hands_on_its_error_number() {
    let found = ip_to_mac(
        Platform::Linux,
        IpAddress::V4([192, 168, 1, 5]),
        b"eth0",
        |_operation, _record| Err(ENODEV),
    );
    assert_eq!(found, Err(ResolveError::OsCallFailed(19)));
}

#[test]
fn failed_call_is_not_taken_for_an_incomplete_entry() {
    let failed = interpret_reply(Err(EPERM));
    let incomplete = interpret_reply(Ok(ArpRequest::zeroed()));
    assert_eq!(failed, Err(ResolveError::OsCallFailed(EPERM)));
    assert_eq!(incomplete, Ok(None));
    assert_ne!(failed, incomplete);
}

#[test]
fn completeness_is_one_bit_among_others() {
    let mut record = ArpRequest::zeroed();
    record.hardware_address.data[..6].copy_from_slice(&[2, 0, 0, 0, 0, 1]);
    record.flags = ATF_COM | 0x04 | 0x40;
    assert_eq!(interpret_reply(Ok(record)), Ok(Some(HardwareAddress::new([2, 0, 0, 0, 0, 1]))));
    record.flags = !ATF_COM;
    assert_eq!(interpret_reply(Ok(record)), Ok(None));
    record.flags = -1;
    assert_eq!(interpret_reply(Ok(record)), Ok(Some(HardwareAddress::new([2, 0, 0, 0, 0, 1]))));
}

#[test]
fn resolved_address_is_the_first_six_bytes() {
    let mut record = ArpRequest::zeroed();
    record.hardware_address.data = [1, 2, 3, 4, 5, 6, 7, 8, 9, 10, 11, 12, 13, 14];
    record.flags = ATF_COM;
    let found = interpret_reply(Ok(record)).unwrap().unwrap();
    assert_eq!(found.octets(), [1, 2, 3, 4, 5, 6]);
    assert_eq!(found.octets().len(), 6);
    assert_eq!(record.resolved(), Some(found));
    assert!(record.is_complete());
}

#[test]
fn all_zero_address_of_a_complete_entry_is_still_an_address() {
    let mut record = ArpRequest::zeroed();
    record.flags = ATF_COM;
    assert_eq!(interpret_reply(Ok(record)), Ok(Some(HardwareAddress::new([0; 6]))));
}

#[test]
fn device_control_gets_the_planned_record_and_operation() {
    let mut seen = None;
    let found = ip_to_mac(
        Platform::Linux,
        IpAddress::V4([10, 0, 0, 7]),
        b"wlan0",
        |operation, record| {
            seen = Some((operation, record));
            Ok(record)
        },
    );
    assert_eq!(found, Ok(None));
    let (operation, record) = seen.unwrap();
    assert_eq!(operation, SIOCGARP);
    assert_eq!(Ok(record), ArpRequest::query([10, 0, 0, 7], b"wlan0"));
    assert_eq!(
        Ok(record),
        prepare_query(Platform::Linux, IpAddress::V4([10, 0, 0, 7]), b"wlan0")
    );
}

#[test]
fn unsupported_platform_refuses_every_input_without_a_call() {
    let inputs: Vec<(IpAddress, Vec<u8>)> = vec![
        (IpAddress::V4([192, 168, 1, 5]), b"eth0".to_vec()),
        (IpAddress::V4([0, 0, 0, 0]), Vec::new()),
        (IpAddress::V6([0; 16]), b"eth0".to_vec()),
        (IpAddress::V4([10, 0, 0, 1]), vec![b'x'; 40]),
    ];
    for (addr, dev) in inputs {
        let mut calls = 0;
        let found = ip_to_mac(Platform::Other, addr, &dev, |_operation, record| {
            calls += 1;
            Ok(record)
        });
        assert_eq!(found, Err(ResolveError::UnsupportedPlatform));
        assert_eq!(calls, 0);
        assert_eq!(
            prepare_query(Platform::Other, addr, &dev),
            Err(ResolveError::UnsupportedPlatform)
        );
    }
}

#[test]
fn platform_support() {
    assert!(Platform::Linux.is_supported());
    assert!(!Platform::Other.is_supported());
}

#[test]
fn ipv6_address_is_refused_without_a_call() {
    let mut calls = 0;
    let mut octets = [0u8; 16];
    octets[15] = 1;
    let found = ip_to_mac(Platform::Linux, IpAddress::V6(octets), b"lo", |_operation, record| {
        calls += 1;
        Ok(record)
    });
    assert_eq!(found, Err(ResolveError::UnsupportedAddressFamily));
    assert_eq!(calls, 0);
}

#[test]
fn ipv6_address_is_judged_before_the_interface_name() {
    let dev = [b'a'; 17];
    assert_eq!(
        prepare_query(Platform::Linux, IpAddress::V6([0; 16]), &dev),
        Err(ResolveError::UnsupportedAddressFamily)
    );
}

#[test]
fn name_of_one_byte_over_capacity_is_refused_without_a_call() {
    let dev = *b"seventeen-bytes-x";
    assert_eq!(dev.len(), 17);
    let mut calls = 0;
    let found = ip_to_mac(Platform::Linux, IpAddress::V4([192, 168, 1, 5]), &dev, |_operation, record| {
        calls += 1;
        Ok(record)
    });
    assert_eq!(found, Err(ResolveError::InterfaceNameTooLong));
    assert_eq!(calls, 0);
}

#[test]
fn name_of_exactly_the_capacity_is_submitted_whole() {
    let dev = *b"sixteen-bytes-xy";
    assert_eq!(dev.len(), 16);
    let mut seen = None;
    let found = ip_to_mac(
        Platform::Linux,
        IpAddress::V4([192, 168, 1, 5]),
        &dev,
        |_operation, record| {
            seen = Some(record);
            Err(ENODEV)
        },
    );
    assert_eq!(found, Err(ResolveError::OsCallFailed(ENODEV)));
    let record = seen.unwrap();
    assert_eq!(record.device, dev);
    let unnamed = ArpRequest::query([192, 168, 1, 5], b"").unwrap();
    assert_eq!(record.protocol_address, unnamed.protocol_address);
    assert_eq!(record.hardware_address, unnamed.hardware_address);
    assert_eq!(record.flags, unnamed.flags);
    assert_eq!(record.netmask, unnamed.netmask);
}

#[test]
fn repeated_lookup_gives_the_same_result() {
    let mac = [0x02, 0x42, 0xAC, 0x11, 0x00, 0x02];
    let first = ip_to_mac(Platform::Linux, IpAddress::V4([172, 17, 0, 2]), b"docker0", complete_entry(mac));
    let second = ip_to_mac(Platform::Linux, IpAddress::V4([172, 17, 0, 2]), b"docker0", complete_entry(mac));
    assert_eq!(first, second);
    assert_eq!(first, Ok(Some(HardwareAddress::new(mac))));

    let first = ip_to_mac(Platform::Linux, IpAddress::V4([172, 17, 0, 2]), b"docker0", |_o, r| Ok(r));
    let second = ip_to_mac(Platform::Linux, IpAddress::V4([172, 17, 0, 2]), b"docker0", |_o, r| Ok(r));
    assert_eq!(first, second);

    let first = ip_to_mac(Platform::Linux, IpAddress::V4([172, 17, 0, 2]), b"docker0", |_o, _r| Err(ENODEV));
    let second = ip_to_mac(Platform::Linux, IpAddress::V4([172, 17, 0, 2]), b"docker0", |_o, _r| Err(ENODEV));
    assert_eq!(first, second);
}

#[test]
fn replies_that_differ_only_outside_the_entry_give_the_same_result() {
    let mut first = ArpRequest::zeroed();
    first.flags = ATF_COM;
    first.hardware_address.data = [9, 8, 7, 6, 5, 4, 0, 0, 0, 0, 0, 0, 0, 0];
    let mut second = first;
    second.flags = ATF_COM | 0x04;
    second.hardware_address.family = 1;
    second.hardware_address.data[6] = 0xFF;
    second.netmask.data[0] = 0xFF;
    assert_eq!(interpret_reply(Ok(first)), interpret_reply(Ok(second)));
}

#[test]
fn every_lookup_ends_in_one_of_three_ways() {
    let replies: Vec<DeviceReply> = vec![
        Err(ENODEV),
        Err(EPERM),
        Ok(ArpRequest::zeroed()),
        Ok(ArpRequest { flags: ATF_COM, ..ArpRequest::zeroed() }),
        Ok(ArpRequest { flags: 0x7FFF_FFFD, ..ArpRequest::zeroed() }),
    ];
    let expected = [
        Err(ResolveError::OsCallFailed(ENODEV)),
        Err(ResolveError::OsCallFailed(EPERM)),
        Ok(None),
        Ok(Some(HardwareAddress::new([0; 6]))),
        Ok(None),
    ];
    for (reply, expected) in replies.into_iter().zip(expected) {
        let found = ip_to_mac(Platform::Linux, IpAddress::V4([192, 168, 1, 5]), b"eth0", move |_o, _r| reply);
        assert_eq!(found, expected);
    }
}
