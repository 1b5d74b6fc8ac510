use crate::errors::InterfaceError;
use crate::ifaces::get_interface_infos;
use crate::model::{valid_report, NetworkStatus};
use vstd::prelude::*;
use vstd::string::StringExecFns;

verus! {

/// The probe target of a request: the address the caller names, or the
/// well-known default host on port 80.
pub fn resolve_target(target_addr: Option<String>) -> (r: String)
    ensures
        match target_addr {
            Some(s) => r@ == s@,
            None => r@ == "www.baidu.com:80"@,
        },
{
    match target_addr {
        Some(s) => s,
        None => String::from_str("www.baidu.com:80"),
    }
}

/// Relies on `tokio::net::TcpStream::connect`, driven to completion on a
/// runtime of its own: whether one TCP connection to `addr` could be
/// opened, and how many milliseconds the attempt took (measured around the
/// call with `std::time::Instant`).  Both depend on the network, so
/// nothing is promised of them.
#[verifier::external_body]
fn probe_tcp(addr: &String) -> (r: (bool, u128)) {
    let started = std::time::Instant::now();
    let connected = match tokio::runtime::Runtime::new() {
        Ok(rt) => rt.block_on(tokio::net::TcpStream::connect(addr.as_str())).is_ok(),
        Err(_) => false,
    };
    (connected, started.elapsed().as_millis())
}

/// The probe policy: the elapsed time is reported as latency exactly when
/// the probe connected; a failed connection reports no latency at all,
/// never a zero or infinite one.
pub fn summarize_probe(connected: bool, elapsed_ms: u128) -> (r: (bool, Option<u128>))
    ensures
        r.0 == connected,
        connected ==> r.1 == Some(elapsed_ms),
        !connected ==> r.1 is None,
{
    (
        connected,
        if connected {
            Some(elapsed_ms)
        } else {
            None
        },
    )
}

/// The connectivity probe: one TCP connection attempt towards the resolved
/// target ([`resolve_target`]), summarized by [`summarize_probe`] — the
/// elapsed time is reported as latency exactly when the attempt connected.
pub fn probe(target_addr: Option<String>) -> (r: (bool, Option<u128>))
    ensures
        r.0 <==> r.1 is Some,
{
    let addr = resolve_target(target_addr);
    let outcome = probe_tcp(&addr);
    summarize_probe(outcome.0, outcome.1)
}

/// The aggregate snapshot of one request: probe connectivity towards the
/// resolved target ([`resolve_target`]), enumerate the usable interfaces,
/// and merge the two.  Latency is present exactly when the probe
/// connected.  An enumeration failure — including the empty enumeration —
/// fails the whole call rather than returning a partial snapshot.
pub fn get_network_status(target_addr: Option<String>) -> (r: Result<
    NetworkStatus,
    InterfaceError,
>)
    ensures
        r matches Ok(st) ==> (st.is_connected <==> st.latency is Some)
            && st.interface_infos@.len() >= 1 && forall|i: int|
            0 <= i < st.interface_infos@.len() ==> valid_report(#[trigger] st.interface_infos@[i]),
        r matches Err(e) ==> e matches InterfaceError::GetIfAddrsError(_) || e
            matches InterfaceError::NoActiveInterfaces,
{
    let (is_connected, latency) = probe(target_addr);
    match get_interface_infos() {
        Ok(infos) => Ok(NetworkStatus { is_connected, latency, interface_infos: infos }),
        Err(e) => Err(e),
    }
}

} // verus!
