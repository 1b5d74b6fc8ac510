use crate::text::{ipv4_text, lemma_ipv4_text_is_dotted_decimal, lemma_usable_ipv4_text_excluded};
use vstd::prelude::*;

verus! {

/// Network-interface information, as reported to clients.
#[derive(Debug)]
pub struct InterfaceInfo {
    /// The MAC address; filled in for every reported interface.
    pub mac_address: Option<String>,
    /// The interface name, such as "eth0" or "en0".
    pub interface_name: String,
    /// The interface's IPv4 address in dotted-decimal form.
    pub ip_address: String,
    /// Whether the interface is active; reported interfaces always are.
    pub is_active: bool,
}

/// The connectivity snapshot of the host.
#[derive(Debug)]
pub struct NetworkStatus {
    /// Whether the connectivity probe reached its target.
    pub is_connected: bool,
    /// The probe's round-trip time in milliseconds, when it connected.
    pub latency: Option<u128>,
    /// The usable interfaces at the time of the probe.
    pub interface_infos: Vec<InterfaceInfo>,
}

/// The query parameters of a network-status request.
#[derive(Debug)]
pub struct NetworkStatusParams {
    /// The probe target as "host:port", when the caller names one.
    pub addr: Option<String>,
}

/// What holds of every interface the enumeration reports: it carries a MAC
/// address, counts as active, and its address text is the dotted-decimal
/// form of a usable IPv4 address — one outside the loopback block and not
/// the unspecified address.
pub open spec fn valid_report(info: InterfaceInfo) -> bool {
    &&& info.mac_address is Some
    &&& info.is_active == true
    &&& exists|a: u8, b: u8, c: u8, d: u8|
        a != 127 && !(a == 0 && b == 0 && c == 0 && d == 0) && info.ip_address@ == ipv4_text(
            a,
            b,
            c,
            d,
        )
}

/// A reported interface's address text is never the loopback literal
/// "127.0.0.1", never the unspecified literal "0.0.0.0", and holds no
/// colon — so it is never an IPv6 literal either.
pub proof fn lemma_valid_report_ip_excluded(info: InterfaceInfo)
    requires
        valid_report(info),
    ensures
        info.ip_address@ != "127.0.0.1"@,
        info.ip_address@ != "0.0.0.0"@,
        forall|i: int| 0 <= i < info.ip_address@.len() ==> info.ip_address@[i] != ':',
{
    let (a, b, c, d) = choose|a: u8, b: u8, c: u8, d: u8|
        a != 127 && !(a == 0 && b == 0 && c == 0 && d == 0) && info.ip_address@ == ipv4_text(
            a,
            b,
            c,
            d,
        );
    lemma_usable_ipv4_text_excluded(a, b, c, d);
    lemma_ipv4_text_is_dotted_decimal(a, b, c, d);
}

} // verus!
