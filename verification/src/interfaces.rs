//! Which network interfaces the application captures on.

use vstd::prelude::*;

verus! {

/// An address of an interface.
#[derive(Clone, Copy, Debug, PartialEq, Eq)]
pub enum IpAddress {
    V4([u8; 4]),
    V6([u8; 16]),
}

/// What the application reads of a network interface.
#[derive(Clone, Debug, PartialEq, Eq)]
pub struct InterfaceInfo {
    /// The interface is up.
    pub up: bool,
    pub ips: Vec<IpAddress>,
}

/// An IPv4 address of a private network: 10.0.0.0/8, 172.16.0.0/12 or
/// 192.168.0.0/16. None of them is a loopback or the unspecified address.
pub open spec fn is_private_ipv4(octets: [u8; 4]) -> bool {
    ||| octets[0] == 10
    ||| octets[0] == 172 && 16 <= octets[1] <= 31
    ||| octets[0] == 192 && octets[1] == 168
}

/// A private IPv4 address.
pub open spec fn is_private_address(ip: IpAddress) -> bool {
    match ip {
        IpAddress::V4(octets) => is_private_ipv4(octets),
        IpAddress::V6(_) => false,
    }
}

/// An interface to capture on: it is up and has a private IPv4 address.
pub open spec fn is_valid(interface: InterfaceInfo) -> bool {
    interface.up && exists|i: int|
        0 <= i < interface.ips@.len() && is_private_address(#[trigger] interface.ips@[i])
}

/// The places of the valid interfaces in a list, in rising order.
pub open spec fn valid_places(interfaces: Seq<InterfaceInfo>) -> Seq<usize>
    decreases interfaces.len(),
{
    if interfaces.len() == 0 {
        Seq::empty()
    } else if is_valid(interfaces.last()) {
        valid_places(interfaces.drop_last()).push((interfaces.len() - 1) as usize)
    } else {
        valid_places(interfaces.drop_last())
    }
}

/// The first `n` of the interfaces.
pub open spec fn listed(interfaces: Seq<InterfaceInfo>, n: usize) -> Seq<InterfaceInfo> {
    interfaces.subrange(0, n as int)
}

/// One interface more adds its place, if it is valid, behind the places so far.
pub proof fn places_grow_with_one_interface(interfaces: Seq<InterfaceInfo>, n: usize)
    requires
        n < interfaces.len() <= usize::MAX,
    ensures
        valid_places(listed(interfaces, (n + 1) as usize)) == (if is_valid(interfaces[n as int]) {
            valid_places(listed(interfaces, n)).push(n)
        } else {
            valid_places(listed(interfaces, n))
        }),
{
    let longer = listed(interfaces, (n + 1) as usize);
    assert(longer.drop_last() =~= listed(interfaces, n));
    assert(longer.last() == interfaces[n as int]);
}

/// Every place that is kept is the place of a valid interface, and there
/// are no more places than interfaces.
pub proof fn valid_places_are_valid(interfaces: Seq<InterfaceInfo>)
    requires
        interfaces.len() <= usize::MAX,
    ensures
        valid_places(interfaces).len() <= interfaces.len(),
        forall|k: int|
            0 <= k < valid_places(interfaces).len() ==> (#[trigger] valid_places(interfaces)[k])
                < interfaces.len() && is_valid(interfaces[valid_places(interfaces)[k] as int]),
    decreases interfaces.len(),
{
    if interfaces.len() > 0 {
        valid_places_are_valid(interfaces.drop_last());
    }
}

/// Tells whether an IPv4 address is private.
pub fn private_ipv4(octets: &[u8; 4]) -> (private: bool)
    ensures
        private == is_private_ipv4(*octets),
{
    octets[0] == 10 || (octets[0] == 172 && 16 <= octets[1] && octets[1] <= 31) || (octets[0]
        == 192 && octets[1] == 168)
}

/// Tells whether an interface has a private IPv4 address.
pub fn has_private_ipv4(intf: &InterfaceInfo) -> (found: bool)
    ensures
        found == exists|i: int|
            0 <= i < intf.ips@.len() && is_private_address(#[trigger] intf.ips@[i]),
{
    let mut i: usize = 0;
    while i < intf.ips.len()
        invariant
            i <= intf.ips.len(),
            forall|j: int| 0 <= j < i ==> !is_private_address(#[trigger] intf.ips@[j]),
        decreases intf.ips.len() - i,
    {
        if let IpAddress::V4(octets) = &intf.ips[i] {
            if private_ipv4(octets) {
                return true;
            }
        }
        i = i + 1;
    }
    false
}

/// Tells whether an interface is one to capture on.
pub fn is_valid_interface(intf: &InterfaceInfo) -> (valid: bool)
    ensures
        valid == is_valid(*intf),
{
    intf.up && !intf.ips.is_empty() && has_private_ipv4(intf)
}

/// The places of the valid interfaces in the list, in rising order.
pub fn filter_valid_interfaces(interfaces: &[InterfaceInfo]) -> (places: Vec<usize>)
    ensures
        places@ == valid_places(interfaces@),
{
    let mut places: Vec<usize> = Vec::new();
    let mut i: usize = 0;
    while i < interfaces.len()
        invariant
            i <= interfaces.len(),
            places@ == valid_places(listed(interfaces@, i)),
        decreases interfaces.len() - i,
    {
        proof {
            places_grow_with_one_interface(interfaces@, i);
        }
        if is_valid_interface(&interfaces[i]) {
            places.push(i);
        }
        i = i + 1;
    }
    assert(listed(interfaces@, i) =~= interfaces@);
    places
}

} // verus!
