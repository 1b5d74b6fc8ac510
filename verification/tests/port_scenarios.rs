use network_tool::ports::PortScan;
use tokio::net::TcpListener;
use tokio::runtime::Runtime;

/// Drive a scan with live test binds on the loopback address, as the
/// service does at startup.
fn allocate_port(rt: &Runtime, start: u16, end: u16, max_retries: u32) -> Option<u16> {
    let mut scan = PortScan::new(start, end, max_retries);
    while scan.is_running() {
        let port = scan.next_candidate();
        let free = rt.block_on(TcpListener::bind(("127.0.0.1", port))).is_ok();
        scan.record(free);
    }
    match scan.verdict() {
        Some(Ok(p)) => Some(p),
        _ => None,
    }
}

#[test]
fn second_instance_binds_a_different_port() {
    let rt = Runtime::new().unwrap();
    let first = allocate_port(&rt, 9425, 9898, 10).expect("a free port in the range");
    assert!(first >= 9425 && first <= 9898);
    // the first instance now holds its port; a second scan must skip it
    let _held = rt
        .block_on(TcpListener::bind(("127.0.0.1", first)))
        .unwrap();
    let second = allocate_port(&rt, 9425, 9898, 10).expect("another free port in the range");
    assert_ne!(first, second);
}
