//! The machine's own IPv4 address, as the default server address: the
//! interface enumeration comes from the `get_if_addrs` crate, and the
//! verified selection picks the first non-loopback IPv4 interface, falling
//! back to a well-known address when none exists.

use vstd::prelude::*;
use vstd::string::*;

verus! {

/// One network interface, reduced to what the selection reads: whether its
/// address is IPv4, the address rendered as text, and whether it is a
/// loopback interface.
pub struct InterfaceInfo {
    pub is_v4: bool,
    pub ip: String,
    pub is_loopback: bool,
}

/// Relies on `get_if_addrs::get_if_addrs` for the interface list and on
/// `Interface::ip` / `Interface::is_loopback` for each entry; the `IfAddr`
/// variant of each entry decides `is_v4`. An enumeration failure yields the
/// empty list. The result depends on the machine, so nothing is promised of
/// it.
#[verifier::external_body]
fn enumerate_interfaces() -> (r: Vec<InterfaceInfo>)
{
    match get_if_addrs::get_if_addrs() {
        Ok(ifaces) => ifaces
            .into_iter()
            .map(|iface| InterfaceInfo {
                is_v4: matches!(iface.addr, get_if_addrs::IfAddr::V4(_)),
                ip: iface.ip().to_string(),
                is_loopback: iface.is_loopback(),
            })
            .collect(),
        Err(_) => Vec::new(),
    }
}

/// The address the default configuration falls back to when no usable
/// interface exists.
pub open spec fn fallback_ip() -> Seq<char> {
    "8.8.8.8"@
}

/// Index of the first non-loopback IPv4 interface at or after `i`.
pub open spec fn find_usable_from(ifaces: Seq<(bool, Seq<char>, bool)>, i: int) -> Option<int>
    decreases ifaces.len() - i,
{
    if i < 0 || i >= ifaces.len() {
        None
    } else if ifaces[i].0 && !ifaces[i].2 {
        Some(i)
    } else {
        find_usable_from(ifaces, i + 1)
    }
}

/// Mathematical value of an interface list.
pub open spec fn ifaces_view(ifaces: Seq<InterfaceInfo>) -> Seq<(bool, Seq<char>, bool)> {
    ifaces.map_values(|f: InterfaceInfo| (f.is_v4, f.ip@, f.is_loopback))
}

/// The address `pick_local_ipv4` is owed: the first non-loopback IPv4
/// interface's address, or the fallback when there is none.
pub open spec fn pick_spec(ifaces: Seq<(bool, Seq<char>, bool)>) -> Seq<char> {
    match find_usable_from(ifaces, 0) {
        Some(k) => ifaces[k].1,
        None => fallback_ip(),
    }
}

/// Picks the machine address the defaults use: the first non-loopback IPv4
/// interface wins; with none, the fallback address stands in.
pub fn pick_local_ipv4(ifaces: &Vec<InterfaceInfo>) -> (r: String)
    ensures
        r@ == pick_spec(ifaces_view(ifaces@)),
{
    let ghost views = ifaces_view(ifaces@);
    let n = ifaces.len();
    let mut i: usize = 0;
    while i < n
        invariant
            n == ifaces@.len(),
            views == ifaces_view(ifaces@),
            0 <= i <= n,
            find_usable_from(views, 0) == find_usable_from(views, i as int),
        decreases n - i,
    {
        if ifaces[i].is_v4 && !ifaces[i].is_loopback {
            return ifaces[i].ip.clone();
        }
        i = i + 1;
    }
    let r = String::from_str("8.8.8.8");
    r
}

/// The machine's own IPv4 address as text: enumerates the interfaces and
/// picks per `pick_spec`. The list depends on the machine, so the exact
/// selection contract lives on `pick_local_ipv4`, which this call applies to
/// whatever enumeration came back.
pub fn get_local_ipv4() -> (r: String)
{
    let ifaces = enumerate_interfaces();
    pick_local_ipv4(&ifaces)
}

} // verus!
