use crate::errors::InterfaceError;
use crate::model::{valid_report, InterfaceInfo};
use crate::text::{ipv4_string, ipv4_text};
use vstd::prelude::*;

verus! {

/// The address of one interface/address pair, as the filter reads it.
#[derive(Clone, Copy, Debug, PartialEq, Eq, Structural)]
pub enum RawIp {
    /// An IPv4 address, by its four octets.
    V4(u8, u8, u8, u8),
    /// An IPv6 address; the enumeration drops these, so the value is not
    /// kept.
    V6,
}

/// One interface/address pair as the operating system reports it.
#[derive(Debug)]
pub struct RawInterface {
    /// The interface name, such as "eth0".
    pub name: String,
    /// The address of the pair.
    pub ip: RawIp,
}

/// Whether a pair passes the filter: the address is IPv4, outside the
/// loopback block `127.0.0.0/8` (which also covers the interface's own
/// loopback flag and the address `127.0.0.1`), and not the unspecified
/// address `0.0.0.0`.
pub open spec fn usable_ip(ip: RawIp) -> bool {
    match ip {
        RawIp::V4(a, b, c, d) => a != 127 && !(a == 0 && b == 0 && c == 0 && d == 0),
        RawIp::V6 => false,
    }
}

/// The pairs that pass the filter, in their reported order.
pub open spec fn usable_of(s: Seq<RawInterface>) -> Seq<RawInterface>
    decreases s.len(),
{
    if s.len() == 0 {
        Seq::empty()
    } else {
        let rest = usable_of(s.drop_last());
        if usable_ip(s.last().ip) {
            rest.push(s.last())
        } else {
            rest
        }
    }
}

/// The dotted-decimal text of a pair's address.
pub open spec fn ip_text_of(ip: RawIp) -> Seq<char> {
    match ip {
        RawIp::V4(a, b, c, d) => ipv4_text(a, b, c, d),
        RawIp::V6 => Seq::empty(),
    }
}

/// How a reported entry describes an enumerated pair: the pair's name, its
/// address text, the resolved MAC, and the construction-time activity mark.
pub open spec fn describes(e: RawInterface, mac: String, info: InterfaceInfo) -> bool {
    &&& info.mac_address == Some(mac)
    &&& info.interface_name == e.name
    &&& info.ip_address@ == ip_text_of(e.ip)
    &&& info.is_active == true
}

/// How many of the first `upto` lookups resolved a MAC address.
pub open spec fn some_count(macs: Seq<Option<String>>, upto: int) -> int
    decreases upto,
{
    if upto <= 0 {
        0
    } else {
        some_count(macs, upto - 1) + (if macs[upto - 1] is Some {
            1int
        } else {
            0int
        })
    }
}

/// Whether a pair passes the filter; see [`usable_ip`].
pub fn is_usable(e: &RawInterface) -> (r: bool)
    ensures
        r == usable_ip(e.ip),
{
    match e.ip {
        RawIp::V4(a, b, c, d) => a != 127 && !(a == 0 && b == 0 && c == 0 && d == 0),
        RawIp::V6 => false,
    }
}

/// The filter stage: keep exactly the pairs that pass the filter, in their
/// reported order.
pub fn keep_usable(list: Vec<RawInterface>) -> (r: Vec<RawInterface>)
    ensures
        r@ == usable_of(list@),
        forall|i: int| 0 <= i < r@.len() ==> usable_ip(#[trigger] r@[i].ip),
{
    let ghost orig = list@;
    let mut work = list;
    let mut r: Vec<RawInterface> = Vec::new();
    let ghost k: int = 0;
    while work.len() > 0
        invariant
            0 <= k <= orig.len(),
            work@ == orig.subrange(k, orig.len() as int),
            r@ == usable_of(orig.subrange(0, k)),
            forall|i: int| 0 <= i < r@.len() ==> usable_ip(#[trigger] r@[i].ip),
        decreases work@.len(),
    {
        let e = work.remove(0);
        proof {
            assert(e == orig[k]);
            assert(work@ =~= orig.subrange(k + 1, orig.len() as int));
            assert(orig.subrange(0, k + 1).drop_last() =~= orig.subrange(0, k));
            assert(orig.subrange(0, k + 1).last() == orig[k]);
        }
        if is_usable(&e) {
            r.push(e);
        }
        proof {
            k = k + 1;
        }
    }
    proof {
        assert(orig.subrange(0, orig.len() as int) =~= orig);
    }
    r
}

/// The dotted-decimal text of a usable pair's address.
pub fn ip_string_of(ip: &RawIp) -> (r: String)
    requires
        usable_ip(*ip),
    ensures
        r@ == ip_text_of(*ip),
{
    match ip {
        RawIp::V4(a, b, c, d) => ipv4_string(*a, *b, *c, *d),
        RawIp::V6 => {
            proof {
                assert(false);
            }
            String::new()
        },
    }
}

/// The best-effort MAC policy: a lookup that resolved no address — whether
/// it reported none or failed outright — yields no MAC at all; the failure
/// is swallowed, never surfaced.
pub fn mac_or_none(looked_up: Result<Option<String>, String>) -> (r: Option<String>)
    ensures
        match looked_up {
            Ok(Some(m)) => r == Some(m),
            Ok(None) => r is None,
            Err(_) => r is None,
        },
{
    match looked_up {
        Ok(Some(m)) => Some(m),
        Ok(None) => None,
        Err(_) => None,
    }
}

/// Relies on `mac_address::mac_address_by_name`: a found address is carried
/// over in its display form (six colon-separated hexadecimal pairs), an
/// absent one as `None`, and a lookup failure as its message.
#[verifier::external_body]
fn lookup_mac(name: &String) -> (r: Result<Option<String>, String>) {
    match mac_address::mac_address_by_name(name.as_str()) {
        Ok(Some(m)) => Ok(Some(m.to_string())),
        Ok(None) => Ok(None),
        Err(e) => Err(e.to_string()),
    }
}

/// The MAC-resolution stage: one lookup per pair, under the best-effort
/// policy of [`mac_or_none`].  What each lookup returns depends on the
/// machine, so only the shape of the result is promised.
pub fn resolve_macs(list: &Vec<RawInterface>) -> (r: Vec<Option<String>>)
    ensures
        r@.len() == list@.len(),
{
    let mut r: Vec<Option<String>> = Vec::new();
    let mut i: usize = 0;
    while i < list.len()
        invariant
            i <= list@.len(),
            r@.len() == i,
        decreases list@.len() - i,
    {
        r.push(mac_or_none(lookup_mac(&list[i].name)));
        i = i + 1;
    }
    r
}

/// Counting resolved lookups never decreases as the prefix grows.
proof fn lemma_some_count_monotone(macs: Seq<Option<String>>, j: int, i: int)
    requires
        j <= i,
    ensures
        some_count(macs, j) <= some_count(macs, i),
    decreases i - j,
{
    if j < i {
        lemma_some_count_monotone(macs, j, i - 1);
    }
}

/// The reporting stage: one entry per pair whose MAC was resolved, in
/// order; pairs without a MAC are dropped.  Entry number `some_count(macs,
/// i)` describes pair `i`, so the output is pinned completely.
pub fn compose_report(list: &Vec<RawInterface>, macs: &Vec<Option<String>>) -> (r: Vec<
    InterfaceInfo,
>)
    requires
        list@.len() == macs@.len(),
        forall|i: int| 0 <= i < list@.len() ==> usable_ip(#[trigger] list@[i].ip),
    ensures
        r@.len() == some_count(macs@, macs@.len() as int),
        forall|i: int|
            0 <= i < macs@.len() && (#[trigger] macs@[i]) is Some ==> describes(
                list@[i],
                macs@[i].unwrap(),
                r@[some_count(macs@, i)],
            ),
        forall|k: int| 0 <= k < r@.len() ==> valid_report(#[trigger] r@[k]),
{
    let mut r: Vec<InterfaceInfo> = Vec::new();
    let mut i: usize = 0;
    while i < list.len()
        invariant
            list@.len() == macs@.len(),
            forall|j: int| 0 <= j < list@.len() ==> usable_ip(#[trigger] list@[j].ip),
            i <= list@.len(),
            r@.len() == some_count(macs@, i as int),
            0 <= some_count(macs@, i as int),
            forall|j: int|
                0 <= j < i && (#[trigger] macs@[j]) is Some ==> describes(
                    list@[j],
                    macs@[j].unwrap(),
                    r@[some_count(macs@, j)],
                ),
            forall|k: int| 0 <= k < r@.len() ==> valid_report(#[trigger] r@[k]),
        decreases list@.len() - i,
    {
        let ghost prev = r@;
        match &macs[i] {
            Some(m) => {
                let e = &list[i];
                let info = InterfaceInfo {
                    mac_address: Some(m.clone()),
                    interface_name: e.name.clone(),
                    ip_address: ip_string_of(&e.ip),
                    is_active: true,
                };
                proof {
                    match e.ip {
                        RawIp::V4(a, b, c, d) => {
                            assert(info.ip_address@ == ipv4_text(a, b, c, d));
                        },
                        RawIp::V6 => {
                            assert(false);
                        },
                    }
                    assert(valid_report(info));
                }
                r.push(info);
            },
            None => {},
        }
        proof {
            assert forall|j: int|
                0 <= j < i as int + 1 && macs@[j] is Some implies describes(
                list@[j],
                macs@[j].unwrap(),
                r@[some_count(macs@, j)],
            ) by {
                if j < i as int {
                    lemma_some_count_monotone(macs@, 0, j);
                    lemma_some_count_monotone(macs@, j + 1, i as int);
                    assert(0 <= some_count(macs@, j) < prev.len());
                    assert(r@[some_count(macs@, j)] == prev[some_count(macs@, j)]);
                }
            }
        }
        i = i + 1;
    }
    r
}

/// The emptiness policy: a report with no entries becomes the distinct
/// "no active interfaces" failure, never an empty success.
pub fn finish_report(infos: Vec<InterfaceInfo>) -> (r: Result<Vec<InterfaceInfo>, InterfaceError>)
    ensures
        infos@.len() == 0 ==> (r matches Err(e) && e matches InterfaceError::NoActiveInterfaces),
        infos@.len() > 0 ==> (r matches Ok(v) && v == infos),
{
    if infos.len() == 0 {
        Err(InterfaceError::NoActiveInterfaces)
    } else {
        Ok(infos)
    }
}

/// Relies on `if_addrs::get_if_addrs`: each reported interface/address
/// pair is carried over as its name together with its four IPv4 octets or
/// an IPv6 marker; an enumeration failure is carried over as its message.
/// What the call returns depends on the machine, so nothing is promised of
/// the list.
#[verifier::external_body]
fn fetch_interfaces() -> (r: Result<Vec<RawInterface>, String>) {
    let of_pair = |i: if_addrs::Interface| RawInterface {
        ip: match i.addr {
            if_addrs::IfAddr::V4(ref a) => {
                let o = a.ip.octets();
                RawIp::V4(o[0], o[1], o[2], o[3])
            },
            if_addrs::IfAddr::V6(_) => RawIp::V6,
        },
        name: i.name,
    };
    match if_addrs::get_if_addrs() {
        Ok(list) => Ok(list.into_iter().map(of_pair).collect()),
        Err(e) => Err(e.to_string()),
    }
}

/// Enumerate the host's usable network interfaces: fetch the
/// operating-system list, filter it ([`keep_usable`]), resolve MAC
/// addresses ([`resolve_macs`]), report the pairs that carry one
/// ([`compose_report`]), and apply the emptiness policy
/// ([`finish_report`]).
///
/// Whatever the operating system reports, a success holds at least one
/// entry and every entry is a valid report: MAC present, active, and a
/// usable dotted-decimal IPv4 address.  The only failures are the
/// enumeration failing itself and the filtered result being empty.
pub fn get_interface_infos() -> (r: Result<Vec<InterfaceInfo>, InterfaceError>)
    ensures
        r matches Ok(v) ==> v@.len() >= 1 && forall|i: int|
            0 <= i < v@.len() ==> valid_report(#[trigger] v@[i]),
        r matches Err(e) ==> e matches InterfaceError::GetIfAddrsError(_) || e
            matches InterfaceError::NoActiveInterfaces,
{
    match fetch_interfaces() {
        Err(msg) => Err(InterfaceError::GetIfAddrsError(msg)),
        Ok(raw) => {
            let kept = keep_usable(raw);
            let macs = resolve_macs(&kept);
            let infos = compose_report(&kept, &macs);
            finish_report(infos)
        },
    }
}

} // verus!
