use network_tool::errors::InterfaceError;
use network_tool::ifaces::{
    compose_report, finish_report, get_interface_infos, keep_usable, mac_or_none, resolve_macs,
    RawInterface, RawIp,
};
use network_tool::model::InterfaceInfo;

#[test]
fn test_interface_error() {
    let err = InterfaceError::NoActiveInterfaces;
    assert_eq!(err.message(), "No active network interfaces found");

    let err = InterfaceError::NoAvailablePort;
    assert_eq!(err.message(), "Failed to find available port");
}

#[test]
fn test_interface_error_display() {
    let err = InterfaceError::PermissionDenied;
    assert_eq!(err.message(), "Permission denied");

    let err = InterfaceError::Unknown("Unexpected error".to_string());
    assert_eq!(err.message(), "Unexpected error");
}

#[test]
fn error_messages_name_each_condition() {
    assert_eq!(
        InterfaceError::GetIfAddrsError("io trouble".to_string()).message(),
        "Failed to get network interfaces: io trouble"
    );
    assert_eq!(
        InterfaceError::MacAddressError("no such device".to_string()).message(),
        "Failed to get MAC address: no such device"
    );
    assert_eq!(
        InterfaceError::MaxRetriesExceeded.message(),
        "Maximum port retry attempts exceeded"
    );
}

/// The enumeration pipeline on a populated snapshot: one usable pair with
/// a resolved MAC.
fn populated_enumeration() -> Result<Vec<InterfaceInfo>, InterfaceError> {
    let entries = vec![
        RawInterface { name: "eth9".to_string(), ip: RawIp::V4(192, 168, 1, 7) },
        RawInterface { name: "lo".to_string(), ip: RawIp::V4(127, 0, 0, 1) },
    ];
    let kept = keep_usable(entries);
    let macs = vec![Some("00:11:22:33:44:55".to_string())];
    let infos = compose_report(&kept, &macs);
    finish_report(infos)
}

#[test]
fn test_get_interface_infos() {
    let result = populated_enumeration();
    assert!(result.is_ok());
    if let Ok(infos) = result {
        assert!(!infos.is_empty());
        for info in infos {
            assert!(!info.interface_name.is_empty());
            assert!(info.mac_address.is_some());
            assert!(!info.ip_address.is_empty());
            assert_eq!(info.is_active, true);
        }
    }
}

#[test]
fn server_net_status_test_test_get_interface_infos() {
    let result = populated_enumeration();
    assert!(result.is_ok());
    if let Ok(infos) = result {
        assert!(!infos.is_empty());
        for info in infos {
            assert!(!info.interface_name.is_empty());
            assert!(info.mac_address.is_some());
            assert!(!info.ip_address.is_empty());
            assert_eq!(info.is_active, true);
        }
    }
}

#[test]
fn test_get_interface_infos_no_interfaces() {
    // the scenario of an empty enumeration, driven through the pure stages
    let kept = keep_usable(Vec::new());
    let macs = resolve_macs(&kept);
    let infos = compose_report(&kept, &macs);
    let result = finish_report(infos);
    assert!(result.is_err());
    if let Err(e) = result {
        assert_eq!(e.message(), "No active network interfaces found");
    }
}

#[test]
fn filter_drops_loopback_unconfigured_and_ipv6() {
    let entries = vec![
        RawInterface { name: "lo".to_string(), ip: RawIp::V4(127, 0, 0, 1) },
        RawInterface { name: "zero".to_string(), ip: RawIp::V4(0, 0, 0, 0) },
        RawInterface { name: "six".to_string(), ip: RawIp::V6 },
        RawInterface { name: "eth9".to_string(), ip: RawIp::V4(192, 168, 1, 7) },
        RawInterface { name: "loopish".to_string(), ip: RawIp::V4(127, 5, 5, 5) },
    ];
    let kept = keep_usable(entries);
    assert_eq!(kept.len(), 1);
    assert_eq!(kept[0].name, "eth9");
    assert_eq!(kept[0].ip, RawIp::V4(192, 168, 1, 7));
}

#[test]
fn report_drops_entries_without_mac() {
    let entries = vec![
        RawInterface { name: "eth9".to_string(), ip: RawIp::V4(192, 168, 1, 7) },
        RawInterface { name: "wlan3".to_string(), ip: RawIp::V4(10, 0, 0, 2) },
    ];
    let macs = vec![Some("00:11:22:33:44:55".to_string()), None];
    let infos = compose_report(&entries, &macs);
    assert_eq!(infos.len(), 1);
    assert_eq!(infos[0].mac_address.as_deref(), Some("00:11:22:33:44:55"));
    assert_eq!(infos[0].interface_name, "eth9");
    assert_eq!(infos[0].ip_address, "192.168.1.7");
    assert!(infos[0].is_active);
}

#[test]
fn mac_policy_swallows_failures() {
    assert_eq!(
        mac_or_none(Ok(Some("00:11:22:33:44:55".to_string()))),
        Some("00:11:22:33:44:55".to_string())
    );
    assert_eq!(mac_or_none(Ok(None)), None);
    assert_eq!(mac_or_none(Err("lookup failed".to_string())), None);
}

#[test]
fn live_enumeration_reports_no_filtered_address() {
    // whatever this host has: a success holds only entries with a MAC and
    // an address that is neither loopback, nor unconfigured, nor IPv6; the
    // only failures are the two enumeration errors
    match get_interface_infos() {
        Ok(infos) => {
            assert!(!infos.is_empty());
            for info in infos {
                assert!(info.mac_address.is_some());
                assert_ne!(info.ip_address, "127.0.0.1");
                assert_ne!(info.ip_address, "0.0.0.0");
                assert!(!info.ip_address.contains(':'));
            }
        }
        Err(e) => assert!(matches!(
            e,
            InterfaceError::NoActiveInterfaces | InterfaceError::GetIfAddrsError(_)
        )),
    }
}
