//! The virtual network that all NAT devices share.

use crate::client::edit::NAT_NETWORK;
use vstd::multiset::Multiset;
use vstd::prelude::*;

verus! {

/// The descriptor of the shared NAT network: forwarding by NAT, the subnet
/// 192.168.100.0/24, addresses 192.168.100.128 to 192.168.100.254 handed out
/// by DHCP.
pub const NAT_NETWORK_XML: &'static str =
    "<network>\n<name>istruct_nat</name>\n<forward mode=\"nat\"/>\n<domain name=\"network\"/>\n<ip address=\"192.168.100.1\" netmask=\"255.255.255.0\">\n  <dhcp>\n    <range start=\"192.168.100.128\" end=\"192.168.100.254\"/>\n  </dhcp>\n</ip>\n</network>";

/// What has to be defined so that the shared NAT network exists: its
/// descriptor where the hypervisor knows no network of its name, and nothing
/// where it knows one.
pub open spec fn nat_network_to_define(present: bool) -> Option<Seq<char>> {
    if present {
        None
    } else {
        Some(NAT_NETWORK_XML@)
    }
}

/// The name under which the hypervisor is asked for the shared NAT network.
pub fn nat_network_name() -> (name: &'static str)
    ensures
        name@ == NAT_NETWORK@,
{
    NAT_NETWORK
}

/// Makes sure that the shared NAT network exists. `present` says whether the
/// hypervisor knows a network of its name. The descriptor that comes back, if
/// one does, has to be defined.
pub fn assure_nat_network(present: bool) -> (define: Option<&'static str>)
    ensures
        match define {
            Some(xml) => nat_network_to_define(present) == Some(xml@),
            None => nat_network_to_define(present) is None,
        },
{
    if present {
        None
    } else {
        Some(NAT_NETWORK_XML)
    }
}

/// The networks that the hypervisor knows, by their names, once the shared
/// NAT network has been made sure of: where its descriptor had to be defined,
/// there is one more network, of its name.
pub open spec fn assured(networks: Multiset<Seq<char>>) -> Multiset<Seq<char>> {
    match nat_network_to_define(networks.count(NAT_NETWORK@) > 0) {
        Some(_) => networks.insert(NAT_NETWORK@),
        None => networks,
    }
}

/// Making sure of the shared NAT network a second time changes nothing: it is
/// defined when it is not there and never again, so that no second network of
/// its name comes to be.
pub proof fn law_nat_network_defined_once(networks: Multiset<Seq<char>>)
    ensures
        assured(networks).count(NAT_NETWORK@) >= 1,
        assured(assured(networks)) == assured(networks),
        networks.count(NAT_NETWORK@) <= 1 ==> assured(assured(networks)).count(NAT_NETWORK@) == 1,
        nat_network_to_define(true) is None,
        nat_network_to_define(false) == Some(NAT_NETWORK_XML@),
{
}

} // verus!
