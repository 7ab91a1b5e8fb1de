//! Behavior of the service wrappers: derivation gates on a live chain,
//! breakage propagates to every derived level, and the plain code
//! mappings are exact.

use rusty_libimobiledevice::idevice::{Device, IpAddress};
use rusty_libimobiledevice::memory_lock::{Invalidated, ValidityChain};
use rusty_libimobiledevice::services::afc::{AfcClient, AfcFileMode, AfcLockOp, LinkType};
use rusty_libimobiledevice::services::companion_proxy::CompanionProxy;
use rusty_libimobiledevice::services::file_relay::{source_names, FileRelay, FileRelaySources};
use rusty_libimobiledevice::services::springboard_services::{
    Orientation, SpringboardServicesClient,
};

fn usb_device(chain: &mut ValidityChain<u64>, udid: &str, mux_id: u32) -> Device {
    Device::new(chain, udid.to_string(), false, None, mux_id).unwrap()
}

#[test]
fn full_chain_through_the_wrappers() {
    let mut chain: ValidityChain<u64> = ValidityChain::new();
    let device = usb_device(&mut chain, "abc", 1);
    let client = device
        .new_lockdownd_client(&mut chain, "label".to_string(), 100)
        .unwrap();
    assert_eq!(client.label, "label");
    let service = client.start_service(&mut chain, 62078, 200).unwrap();
    assert_eq!(service.port, 62078);
    let mounter = device
        .new_mobile_image_mounter(&mut chain, &service, 300)
        .unwrap();
    assert_eq!(mounter.check(&chain), Ok(300));

    // Tearing down the protocol client breaks the descriptor and the
    // mounter, but not the device.
    client.lock.invalidate(&mut chain);
    assert_eq!(device.lock.check(&chain), Ok(1));
    assert_eq!(client.lock.check(&chain), Err(Invalidated));
    assert_eq!(service.lock.check(&chain), Err(Invalidated));
    assert_eq!(mounter.check(&chain), Err(Invalidated));
}

#[test]
fn derivation_from_a_freed_device_fails() {
    let mut chain: ValidityChain<u64> = ValidityChain::new();
    let device = usb_device(&mut chain, "abc", 1);
    device.lock.invalidate(&mut chain);
    let len_before = chain.len();
    assert!(device
        .new_heartbeat_client(&mut chain, "hb".to_string(), 100)
        .is_err());
    assert!(device
        .new_instproxy_client(&mut chain, "ip".to_string(), 101)
        .is_err());
    assert!(device
        .new_debug_server(&mut chain, "dbg".to_string(), 102)
        .is_err());
    assert!(AfcClient::start_service(&mut chain, &device, 103).is_err());
    assert_eq!(chain.len(), len_before);
}

#[test]
fn heartbeat_and_instproxy_follow_the_device() {
    let mut chain: ValidityChain<u64> = ValidityChain::new();
    let device = usb_device(&mut chain, "abc", 1);
    let hb = device
        .new_heartbeat_client(&mut chain, "hb".to_string(), 100)
        .unwrap();
    let ip = device
        .new_instproxy_client(&mut chain, "ip".to_string(), 101)
        .unwrap();
    assert_eq!(hb.check(&chain), Ok(100));
    assert_eq!(ip.check(&chain), Ok(101));
    device.lock.invalidate(&mut chain);
    assert_eq!(hb.check(&chain), Err(Invalidated));
    assert_eq!(ip.check(&chain), Err(Invalidated));
}

#[test]
fn debug_server_flow_on_a_network_device() {
    let mut chain: ValidityChain<u64> = ValidityChain::new();
    let device = Device::new(
        &mut chain,
        "net".to_string(),
        true,
        Some(IpAddress::V4([10, 0, 0, 2])),
        4,
    )
    .unwrap();
    let dbg = device
        .new_debug_server(&mut chain, "idevicedebug".to_string(), 500)
        .unwrap();
    assert_eq!(dbg.label, "idevicedebug");
    assert_eq!(dbg.check(&chain), Ok(500));
    dbg.invalidate(&mut chain);
    assert_eq!(dbg.check(&chain), Err(Invalidated));
    assert_eq!(device.lock.check(&chain), Ok(4));
}

#[test]
fn afc_pair_is_wired_to_the_device() {
    let mut chain: ValidityChain<u64> = ValidityChain::new();
    let device = usb_device(&mut chain, "abc", 1);
    let (afc, service) = AfcClient::new(&mut chain, &device, 100, 200, 62078).unwrap();
    assert_eq!(afc.check(&chain), Ok(100));
    assert_eq!(service.lock.check(&chain), Ok(200));
    assert_eq!(service.port, 62078);
    device.lock.invalidate(&mut chain);
    assert_eq!(afc.check(&chain), Err(Invalidated));
    assert_eq!(service.lock.check(&chain), Err(Invalidated));
}

#[test]
fn companion_proxy_follows_its_descriptor() {
    let mut chain: ValidityChain<u64> = ValidityChain::new();
    let device = usb_device(&mut chain, "abc", 1);
    let client = device
        .new_lockdownd_client(&mut chain, "l".to_string(), 100)
        .unwrap();
    let descriptor = client.start_service(&mut chain, 50000, 200).unwrap();
    let proxy = CompanionProxy::new(&mut chain, &device, &descriptor, 300).unwrap();
    assert_eq!(proxy.check(&chain), Ok(300));
    descriptor.lock.invalidate(&mut chain);
    assert_eq!(proxy.check(&chain), Err(Invalidated));
    assert_eq!(client.lock.check(&chain), Ok(100));
}

#[test]
fn file_relay_and_springboard_start_service() {
    let mut chain: ValidityChain<u64> = ValidityChain::new();
    let device = usb_device(&mut chain, "abc", 1);
    let relay = FileRelay::start_service(&mut chain, &device, 100).unwrap();
    let sb = SpringboardServicesClient::start_service(&mut chain, &device, 101).unwrap();
    assert_eq!(relay.check(&chain), Ok(100));
    assert_eq!(sb.check(&chain), Ok(101));
    relay.invalidate(&mut chain);
    assert_eq!(relay.check(&chain), Err(Invalidated));
    assert_eq!(sb.check(&chain), Ok(101));
}

#[test]
fn afc_file_mode_codes() {
    assert!(matches!(AfcFileMode::from_code(1), AfcFileMode::ReadOnly));
    assert!(matches!(AfcFileMode::from_code(2), AfcFileMode::ReadWrite));
    assert!(matches!(AfcFileMode::from_code(3), AfcFileMode::WriteOnly));
    assert!(matches!(AfcFileMode::from_code(4), AfcFileMode::WriteRead));
    assert!(matches!(AfcFileMode::from_code(5), AfcFileMode::Append));
    assert!(matches!(AfcFileMode::from_code(6), AfcFileMode::ReadAppend));
    assert_eq!(AfcFileMode::ReadOnly.code(), 1);
    assert_eq!(AfcFileMode::ReadWrite.code(), 2);
    assert_eq!(AfcFileMode::WriteOnly.code(), 3);
    assert_eq!(AfcFileMode::WriteRead.code(), 4);
    assert_eq!(AfcFileMode::Append.code(), 5);
    assert_eq!(AfcFileMode::ReadAppend.code(), 6);
}

#[test]
fn afc_lock_and_link_codes() {
    assert_eq!(AfcLockOp::Sh.code(), 5);
    assert_eq!(AfcLockOp::Ex.code(), 6);
    assert_eq!(AfcLockOp::Un.code(), 12);
    assert_eq!(LinkType::HardLink.code(), 1);
    assert_eq!(LinkType::SymbolicLink.code(), 2);
}

#[test]
fn orientation_codes() {
    assert!(matches!(Orientation::from_code(0), Orientation::Unknown));
    assert!(matches!(Orientation::from_code(1), Orientation::Portrait));
    assert!(matches!(
        Orientation::from_code(2),
        Orientation::PortraitUpsideDown
    ));
    assert!(matches!(
        Orientation::from_code(3),
        Orientation::LandscapeRight
    ));
    assert!(matches!(
        Orientation::from_code(4),
        Orientation::LandscapeLeft
    ));
    assert_eq!(Orientation::Unknown.code(), 0);
    assert_eq!(Orientation::Portrait.code(), 1);
    assert_eq!(Orientation::PortraitUpsideDown.code(), 2);
    assert_eq!(Orientation::LandscapeRight.code(), 3);
    assert_eq!(Orientation::LandscapeLeft.code(), 4);
}

#[test]
fn file_relay_source_names() {
    let sources = vec![
        FileRelaySources::AppleSupport,
        FileRelaySources::Network,
        FileRelaySources::VPN,
        FileRelaySources::WiFi,
        FileRelaySources::UserDatabases,
        FileRelaySources::CrashReporter,
        FileRelaySources::Tmp,
        FileRelaySources::SystemConfiguration,
    ];
    let names = source_names(&sources);
    assert_eq!(
        names,
        vec![
            "AppleSupport".to_string(),
            "Network".to_string(),
            "VPN".to_string(),
            "WiFi".to_string(),
            "UserDatabases".to_string(),
            "CrashReporter".to_string(),
            "Tmp".to_string(),
            "SystemConfiguration".to_string(),
        ],
    );
    assert_eq!(FileRelaySources::WiFi.name(), "WiFi");
}
