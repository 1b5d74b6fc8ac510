use network_tool::errors::InterfaceError;
use network_tool::status::{get_network_status, probe, resolve_target, summarize_probe};

#[test]
fn default_probe_target_is_well_known_host() {
    assert_eq!(resolve_target(None), "www.baidu.com:80");
    assert_eq!(
        resolve_target(Some("10.0.0.1:8080".to_string())),
        "10.0.0.1:8080"
    );
}

#[test]
fn latency_reported_only_when_connected() {
    assert_eq!(summarize_probe(true, 5), (true, Some(5)));
    assert_eq!(summarize_probe(false, 5), (false, None));
    assert_eq!(summarize_probe(true, 0), (true, Some(0)));
}

#[test]
fn probe_refused_port_reports_no_latency() {
    // a closed local port refuses the connection at once
    let (connected, latency) = probe(Some("127.0.0.1:1".to_string()));
    assert!(!connected);
    assert!(latency.is_none());
}

#[test]
fn network_status_against_refused_port() {
    // with usable interfaces present, the snapshot reports the failed probe
    // with no latency and a populated interface list; without any, the
    // whole call fails with the distinct enumeration error
    match get_network_status(Some("127.0.0.1:1".to_string())) {
        Ok(status) => {
            assert_eq!(status.is_connected, false);
            assert!(status.latency.is_none());
            assert!(!status.interface_infos.is_empty());
        }
        Err(e) => assert!(matches!(
            e,
            InterfaceError::NoActiveInterfaces | InterfaceError::GetIfAddrsError(_)
        )),
    }
}
