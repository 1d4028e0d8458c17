use ec2_by_name::address::IpAddress;
use ec2_by_name::filter::{strategies, Filter, Strategy};
use ec2_by_name::resolve::{begin_address, begin_lookup, Lookup};
use ec2_by_name::fanin::Turn;

fn v4() -> IpAddress {
    IpAddress::V4("203.0.113.7".to_string())
}

fn v6() -> IpAddress {
    IpAddress::V6("2001:db8::7".to_string())
}

fn filter(name: &str, value: &str) -> Filter {
    Filter { name: name.to_string(), value: value.to_string() }
}

#[test]
fn there_are_five_strategies_in_a_fixed_order() {
    assert_eq!(
        strategies(),
        vec![
            Strategy::PublicIp,
            Strategy::PublicEip,
            Strategy::PrivateIp,
            Strategy::PrivateNetifIp,
            Strategy::NetifIpv6,
        ]
    );
}

#[test]
fn each_strategy_compares_its_own_field() {
    assert_eq!(Strategy::PublicIp.field_name(), "ip-address");
    assert_eq!(
        Strategy::PublicEip.field_name(),
        "network-interface.addresses.association.public-ip"
    );
    assert_eq!(Strategy::PrivateIp.field_name(), "private-ip-address");
    assert_eq!(
        Strategy::PrivateNetifIp.field_name(),
        "network-interface.addresses.private-ip-address"
    );
    assert_eq!(
        Strategy::NetifIpv6.field_name(),
        "network-interface.ipv6-addresses.ipv6-address"
    );
}

#[test]
fn address_knows_its_family_and_text() {
    assert!(v4().is_ipv4());
    assert!(!v6().is_ipv4());
    assert_eq!(v4().as_text(), "203.0.113.7");
    assert_eq!(v6().as_text(), "2001:db8::7");
}

#[test]
fn ipv4_address_is_asked_about_by_the_four_ipv4_strategies() {
    let a = v4();
    assert_eq!(Strategy::PublicIp.filter_for(&a), Some(filter("ip-address", "203.0.113.7")));
    assert_eq!(
        Strategy::PublicEip.filter_for(&a),
        Some(filter("network-interface.addresses.association.public-ip", "203.0.113.7"))
    );
    assert_eq!(
        Strategy::PrivateIp.filter_for(&a),
        Some(filter("private-ip-address", "203.0.113.7"))
    );
    assert_eq!(
        Strategy::PrivateNetifIp.filter_for(&a),
        Some(filter("network-interface.addresses.private-ip-address", "203.0.113.7"))
    );
    assert_eq!(Strategy::NetifIpv6.filter_for(&a), None);
}

#[test]
fn ipv6_address_is_asked_about_by_the_interface_strategy_alone() {
    let a = v6();
    assert_eq!(Strategy::PublicIp.filter_for(&a), None);
    assert_eq!(Strategy::PublicEip.filter_for(&a), None);
    assert_eq!(Strategy::PrivateIp.filter_for(&a), None);
    assert_eq!(Strategy::PrivateNetifIp.filter_for(&a), None);
    assert_eq!(
        Strategy::NetifIpv6.filter_for(&a),
        Some(filter("network-interface.ipv6-addresses.ipv6-address", "2001:db8::7"))
    );
}

#[test]
fn lookup_that_does_not_apply_is_settled_with_the_empty_set() {
    match begin_lookup(Strategy::PrivateIp, &v6()) {
        Lookup::Settled(set) => assert!(set.is_empty()),
        Lookup::Ask(..) => panic!("no query is made for an address of the other family"),
    }
    match begin_lookup(Strategy::NetifIpv6, &v4()) {
        Lookup::Settled(set) => assert!(set.is_empty()),
        Lookup::Ask(..) => panic!("no query is made for an address of the other family"),
    }
}

#[test]
fn lookup_that_applies_asks_with_its_filter() {
    match begin_lookup(Strategy::PublicEip, &v4()) {
        Lookup::Ask(f, _) => assert_eq!(
            f,
            filter("network-interface.addresses.association.public-ip", "203.0.113.7")
        ),
        Lookup::Settled(_) => panic!("the strategy applies"),
    }
}

#[test]
fn resolution_of_an_ipv6_address_makes_one_query() {
    let start = begin_address(&v6());
    assert_eq!(start.lookups.len(), 5);
    let mut asked = Vec::new();
    for lookup in start.lookups {
        match lookup {
            Lookup::Ask(f, _) => asked.push(f),
            Lookup::Settled(set) => assert!(set.is_empty()),
        }
    }
    assert_eq!(asked, vec![filter("network-interface.ipv6-addresses.ipv6-address", "2001:db8::7")]);
    assert!(matches!(start.turn, Turn::Await(_)));
}

#[test]
fn resolution_of_an_ipv4_address_makes_four_queries() {
    let start = begin_address(&v4());
    let asked: Vec<String> = start
        .lookups
        .into_iter()
        .filter_map(|lookup| match lookup {
            Lookup::Ask(f, _) => Some(f.name),
            Lookup::Settled(_) => None,
        })
        .collect();
    assert_eq!(
        asked,
        vec![
            "ip-address".to_string(),
            "network-interface.addresses.association.public-ip".to_string(),
            "private-ip-address".to_string(),
            "network-interface.addresses.private-ip-address".to_string(),
        ]
    );
}
