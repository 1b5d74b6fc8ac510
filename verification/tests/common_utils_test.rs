use network_tool::errors::InterfaceError;
use network_tool::ports::{find_available_port, PortScan, ScanState};

#[test]
fn test_find_available_port() {
    // every port of the range is free: the first one is chosen
    let free = vec![true; 101];
    let port = find_available_port(9000, 9100, 100, &free).unwrap();
    assert!(port >= 9000 && port <= 9100);
    // the found port is occupied now: the scan must skip it
    let occupied_then_free = vec![false, true];
    let next_port = find_available_port(port, port + 1, 100, &occupied_then_free).unwrap();
    assert!(next_port > port);
}

#[test]
fn scan_skips_occupied_ports() {
    // the first three ports are occupied, the fourth is free
    let free = vec![false, false, false, true, true];
    let port = find_available_port(9000, 9004, 100, &free).unwrap();
    assert_eq!(port, 9003);
}

#[test]
fn scan_reports_spent_retries_distinctly() {
    // ten probes allowed, all occupied, ports left over: retries ran out
    let free = vec![false; 101];
    let err = find_available_port(9000, 9100, 10, &free).unwrap_err();
    assert_eq!(err.message(), "Maximum port retry attempts exceeded");
    // the whole range probed without success: the range ran out
    let err = find_available_port(9000, 9100, 1000, &free).unwrap_err();
    assert_eq!(err.message(), "Failed to find available port");
}

#[test]
fn scan_with_no_retry_budget_fails_at_once() {
    let free = vec![true; 3];
    let err = find_available_port(9000, 9002, 0, &free).unwrap_err();
    assert!(matches!(err, InterfaceError::MaxRetriesExceeded));
}

#[test]
fn scan_machine_probes_in_ascending_order() {
    let mut scan = PortScan::new(9000, 9002, 10);
    assert!(scan.is_running());
    assert_eq!(scan.next_candidate(), 9000);
    scan.record(false);
    assert_eq!(scan.next_candidate(), 9001);
    scan.record(true);
    assert!(!scan.is_running());
    assert!(matches!(scan.state, ScanState::Found(9001)));
    assert_eq!(scan.verdict(), Some(Ok(9001)));
}

#[test]
fn scan_machine_exhausts_range() {
    let mut scan = PortScan::new(9000, 9001, 10);
    scan.record(false);
    scan.record(false);
    assert!(!scan.is_running());
    match scan.verdict() {
        Some(Err(InterfaceError::NoAvailablePort)) => {}
        other => panic!("the scan should report an exhausted range, not {:?}", other),
    }
}
