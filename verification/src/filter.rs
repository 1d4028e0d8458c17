//! The five ways to look an address up in the inventory.

use vstd::prelude::*;
use vstd::string::StringExecFns;
use crate::address::IpAddress;

verus! {

/// One predicate of an inventory query: the field named `name` equals `value`.
#[derive(Debug, Clone, PartialEq, Eq)]
pub struct Filter {
    pub name: String,
    pub value: String,
}

impl View for Filter {
    type V = (Seq<char>, Seq<char>);

    open spec fn view(&self) -> (Seq<char>, Seq<char>) {
        (self.name@, self.value@)
    }
}

/// A role in which an instance can hold an address.
#[derive(Debug, Clone, Copy, PartialEq, Eq, Structural)]
pub enum Strategy {
    /// The instance's public address.
    PublicIp,
    /// A public address associated with one of its network interfaces.
    PublicEip,
    /// The instance's private address.
    PrivateIp,
    /// A private address of one of its network interfaces.
    PrivateNetifIp,
    /// An IPv6 address of one of its network interfaces.
    NetifIpv6,
}

impl Strategy {
    /// The inventory field that the strategy compares with the address.
    pub open spec fn field(self) -> Seq<char> {
        match self {
            Strategy::PublicIp => "ip-address"@,
            Strategy::PublicEip => "network-interface.addresses.association.public-ip"@,
            Strategy::PrivateIp => "private-ip-address"@,
            Strategy::PrivateNetifIp => "network-interface.addresses.private-ip-address"@,
            Strategy::NetifIpv6 => "network-interface.ipv6-addresses.ipv6-address"@,
        }
    }

    /// Whether the strategy has anything to ask about `address`: the last
    /// one is for IPv6 addresses alone, the others for IPv4 addresses alone.
    pub open spec fn applies_to(self, address: IpAddress) -> bool {
        match self {
            Strategy::NetifIpv6 => address is V6,
            _ => address is V4,
        }
    }

    /// The query that the strategy makes for `address`, if it makes one.
    pub open spec fn query(self, address: IpAddress) -> Option<(Seq<char>, Seq<char>)> {
        if self.applies_to(address) {
            Some((self.field(), address.text()))
        } else {
            None
        }
    }

    /// The inventory field that the strategy compares with the address.
    pub fn field_name(self) -> (name: &'static str)
        ensures
            name@ == self.field(),
    {
        match self {
            Strategy::PublicIp => "ip-address",
            Strategy::PublicEip => "network-interface.addresses.association.public-ip",
            Strategy::PrivateIp => "private-ip-address",
            Strategy::PrivateNetifIp => "network-interface.addresses.private-ip-address",
            Strategy::NetifIpv6 => "network-interface.ipv6-addresses.ipv6-address",
        }
    }

    /// The filter to query the inventory with for `address`, or `None` where
    /// the strategy does not apply: then it finds nothing, and asks nothing.
    pub fn filter_for(self, address: &IpAddress) -> (filter: Option<Filter>)
        ensures
            filter is Some <==> self.applies_to(*address),
            filter matches Some(f) ==> Some(f@) == self.query(*address),
    {
        let applies = match self {
            Strategy::NetifIpv6 => !address.is_ipv4(),
            _ => address.is_ipv4(),
        };
        if applies {
            Some(
                Filter {
                    name: String::from_str(self.field_name()),
                    value: String::from_str(address.as_text()),
                },
            )
        } else {
            None
        }
    }
}

/// The strategies in the order in which they are tried.
pub open spec fn all_strategies() -> Seq<Strategy> {
    seq![
        Strategy::PublicIp,
        Strategy::PublicEip,
        Strategy::PrivateIp,
        Strategy::PrivateNetifIp,
        Strategy::NetifIpv6,
    ]
}

/// The strategies in the order in which they are tried.
pub fn strategies() -> (list: Vec<Strategy>)
    ensures
        list@ == all_strategies(),
{
    let mut list: Vec<Strategy> = Vec::new();
    list.push(Strategy::PublicIp);
    list.push(Strategy::PublicEip);
    list.push(Strategy::PrivateIp);
    list.push(Strategy::PrivateNetifIp);
    list.push(Strategy::NetifIpv6);
    list
}

/// Every strategy applies to one family, and each family has a strategy:
/// for an IPv6 address the interface strategy alone makes a query, for an
/// IPv4 address the four others do and it does not.
pub proof fn lemma_strategies_by_family(address: IpAddress)
    ensures
        address is V6 ==> forall|s: Strategy| s.applies_to(address) <==> s is NetifIpv6,
        address is V4 ==> forall|s: Strategy| s.applies_to(address) <==> !(s is NetifIpv6),
        forall|s: Strategy| s.query(address) is None <==> !s.applies_to(address),
{
}

} // verus!
