use ip_decoder::address::{Address, Ipv4Addr, Ipv6Addr};
use ip_decoder::classify::{
    check_well_known_ip_addrs, interpret_ip, FamilyFacts, Ipv4Facts, LegacyClass, SpecialRange,
    WellKnown,
};

fn v4_facts(a: u8, b: u8, c: u8, d: u8) -> Ipv4Facts {
    match interpret_ip(Address::V4(Ipv4Addr::new(a, b, c, d))).family {
        FamilyFacts::V4(facts) => facts,
        FamilyFacts::V6(_) => panic!("an IPv4 address has IPv4 facts"),
    }
}

#[test]
fn classification_of_10_0_0_1() {
    let ip = Address::V4(Ipv4Addr::new(10, 0, 0, 1));
    let result = interpret_ip(ip);
    assert_eq!(result.address, ip);
    assert!(!result.loopback);
    assert!(!result.unspecified);
    assert!(!result.multicast);
    assert_eq!(result.canonical, ip);
    assert!(result.ipv4);
    assert!(!result.ipv6);
    let facts = v4_facts(10, 0, 0, 1);
    assert!(facts.private);
    assert_eq!(facts.special_range, Some(SpecialRange::PrivateClassA));
    assert_eq!(
        SpecialRange::PrivateClassA.message(),
        "Private network, class A, 24-bit block, 8-bit mask"
    );
    assert_eq!(facts.well_known, WellKnown::Unknown);
    assert_eq!(facts.legacy_class, LegacyClass::A);
    assert!(!facts.link_local);
    assert!(!facts.broadcast);
    assert!(!facts.documentation);
    assert_eq!(
        facts.ipv6_compatible,
        Ipv6Addr::new([0, 0, 0, 0, 0, 0, 0x0A00, 1])
    );
    assert_eq!(
        facts.ipv6_mapped,
        Ipv6Addr::new([0, 0, 0, 0, 0, 0xFFFF, 0x0A00, 1])
    );
}

#[test]
fn classification_of_8_8_8_8() {
    let facts = v4_facts(8, 8, 8, 8);
    assert_eq!(facts.well_known, WellKnown::GooglePublicDns);
    assert_eq!(facts.well_known.name(), "Google Public DNS");
    assert_eq!(facts.legacy_class, LegacyClass::A);
    assert_eq!(facts.legacy_class.label(), "CIDR Class A");
    assert!(!facts.private);
    assert_eq!(facts.special_range, None);
}

#[test]
fn classification_of_192_168_1_1() {
    let facts = v4_facts(192, 168, 1, 1);
    assert!(facts.private);
    assert_eq!(facts.special_range, Some(SpecialRange::PrivateClassC));
    assert_eq!(
        SpecialRange::PrivateClassC.message(),
        "Private network, class C, 16-bit block, 16-bit mask"
    );
    assert_eq!(facts.legacy_class, LegacyClass::C);
    assert_eq!(facts.legacy_class.label(), "CIDR Class C");
}

#[test]
fn classification_of_an_ipv6_address() {
    let ip = Address::V6(Ipv6Addr::new([0x2001, 0xDB8, 0, 0, 0, 0, 0, 1]));
    let result = interpret_ip(ip);
    assert!(!result.loopback && !result.unspecified && !result.multicast);
    assert!(result.ipv6 && !result.ipv4);
    assert_eq!(result.canonical, ip);
    match result.family {
        FamilyFacts::V6(facts) => assert_eq!(facts.first_segment, 0x2001),
        FamilyFacts::V4(_) => panic!("an IPv6 address has IPv6 facts"),
    }
}

#[test]
fn classification_of_a_mapped_address_has_an_ipv4_canonical_form() {
    let ip = Address::V6(Ipv6Addr::new([0, 0, 0, 0, 0, 0xFFFF, 0x7F00, 1]));
    let result = interpret_ip(ip);
    assert_eq!(result.canonical, Address::V4(Ipv4Addr::new(127, 0, 0, 1)));
    assert!(result.ipv6);
    assert!(!result.loopback);
}

#[test]
fn classification_of_loopback_unspecified_and_multicast() {
    assert!(interpret_ip(Address::V4(Ipv4Addr::new(127, 0, 0, 1))).loopback);
    assert!(interpret_ip(Address::V4(Ipv4Addr::new(0, 0, 0, 0))).unspecified);
    assert!(interpret_ip(Address::V4(Ipv4Addr::new(224, 0, 0, 251))).multicast);
    assert!(interpret_ip(Address::V6(Ipv6Addr::new([0, 0, 0, 0, 0, 0, 0, 1]))).loopback);
    assert!(interpret_ip(Address::V6(Ipv6Addr::new([0; 8]))).unspecified);
    assert!(interpret_ip(Address::V6(Ipv6Addr::new([0xFF02, 0, 0, 0, 0, 0, 0, 1]))).multicast);
}

#[test]
fn well_known_resolvers() {
    assert_eq!(check_well_known_ip_addrs([8, 8, 8, 8]), "Google Public DNS");
    assert_eq!(check_well_known_ip_addrs([8, 8, 4, 4]), "Google Public DNS");
    assert_eq!(check_well_known_ip_addrs([1, 1, 1, 1]), "Cloudflare DNS");
    assert_eq!(check_well_known_ip_addrs([1, 0, 0, 1]), "Cloudflare DNS");
    assert_eq!(check_well_known_ip_addrs([4, 2, 2, 1]), "Level 3 DNS");
    assert_eq!(check_well_known_ip_addrs([4, 2, 2, 2]), "Level 3 DNS");
    assert_eq!(check_well_known_ip_addrs([4, 2, 2, 6]), "Level 3 DNS");
    assert_eq!(check_well_known_ip_addrs([9, 9, 9, 9]), "Quad9 DNS");
}

#[test]
fn addresses_next_to_well_known_resolvers_are_unknown() {
    assert_eq!(check_well_known_ip_addrs([8, 8, 8, 4]), "Unknown");
    assert_eq!(check_well_known_ip_addrs([8, 8, 4, 8]), "Unknown");
    assert_eq!(check_well_known_ip_addrs([1, 1, 0, 1]), "Unknown");
    assert_eq!(check_well_known_ip_addrs([1, 0, 1, 1]), "Unknown");
    assert_eq!(check_well_known_ip_addrs([4, 2, 2, 0]), "Unknown");
    assert_eq!(check_well_known_ip_addrs([4, 2, 2, 7]), "Unknown");
    assert_eq!(check_well_known_ip_addrs([4, 2, 3, 1]), "Unknown");
    assert_eq!(check_well_known_ip_addrs([9, 9, 9, 10]), "Unknown");
    assert_eq!(check_well_known_ip_addrs([0, 0, 0, 0]), "Unknown");
    assert_eq!(check_well_known_ip_addrs([255, 255, 255, 255]), "Unknown");
}

#[test]
fn well_known_names() {
    assert_eq!(WellKnown::GooglePublicDns.name(), "Google Public DNS");
    assert_eq!(WellKnown::CloudflareDns.name(), "Cloudflare DNS");
    assert_eq!(WellKnown::Level3Dns.name(), "Level 3 DNS");
    assert_eq!(WellKnown::Quad9Dns.name(), "Quad9 DNS");
    assert_eq!(WellKnown::Unknown.name(), "Unknown");
    assert_eq!(WellKnown::of(&Ipv4Addr::new(1, 1, 1, 1)), WellKnown::CloudflareDns);
}

#[test]
fn special_ranges() {
    let of = |a, b, c, d| SpecialRange::of(&Ipv4Addr::new(a, b, c, d));
    assert_eq!(of(10, 1, 2, 3), Some(SpecialRange::PrivateClassA));
    assert_eq!(of(172, 16, 0, 1), Some(SpecialRange::PrivateClassB));
    assert_eq!(of(172, 31, 0, 1), Some(SpecialRange::PrivateClassB));
    assert_eq!(of(172, 15, 0, 1), None);
    assert_eq!(of(172, 32, 0, 1), None);
    assert_eq!(of(192, 168, 0, 1), Some(SpecialRange::PrivateClassC));
    assert_eq!(of(192, 167, 0, 1), None);
    assert_eq!(of(100, 64, 0, 1), Some(SpecialRange::CarrierGradeNat));
    assert_eq!(of(100, 127, 255, 255), Some(SpecialRange::CarrierGradeNat));
    assert_eq!(of(100, 63, 0, 1), None);
    assert_eq!(of(100, 128, 0, 1), None);
    assert_eq!(of(169, 254, 1, 1), Some(SpecialRange::LinkLocalUnicast));
    assert_eq!(of(169, 253, 1, 1), None);
    assert_eq!(of(224, 0, 0, 1), Some(SpecialRange::LinkLocalMulticast));
    assert_eq!(of(225, 0, 0, 1), None);
    assert_eq!(of(8, 8, 8, 8), None);
}

#[test]
fn special_range_messages() {
    assert_eq!(
        SpecialRange::PrivateClassA.message(),
        "Private network, class A, 24-bit block, 8-bit mask"
    );
    assert_eq!(
        SpecialRange::PrivateClassB.message(),
        "Private network, class B, 20-bit block, 12-bit mask"
    );
    assert_eq!(
        SpecialRange::PrivateClassC.message(),
        "Private network, class C, 16-bit block, 16-bit mask"
    );
    assert_eq!(
        SpecialRange::CarrierGradeNat.message(),
        "Carrier-grade NAT range, 22-bit block, 10-bit mask"
    );
    assert_eq!(
        SpecialRange::LinkLocalUnicast.message(),
        "Link-local unicast, 16-bit block, 16-bit mask"
    );
    assert_eq!(
        SpecialRange::LinkLocalMulticast.message(),
        "Link-local multicast, 24-bit block, 8-bit mask"
    );
}

#[test]
fn legacy_classes_at_their_bounds() {
    let of = |a| LegacyClass::of(&Ipv4Addr::new(a, 0, 0, 1));
    assert_eq!(of(0), LegacyClass::A);
    assert_eq!(of(127), LegacyClass::A);
    assert_eq!(of(128), LegacyClass::B);
    assert_eq!(of(191), LegacyClass::B);
    assert_eq!(of(192), LegacyClass::C);
    assert_eq!(of(223), LegacyClass::C);
    assert_eq!(of(224), LegacyClass::DE);
    assert_eq!(of(255), LegacyClass::DE);
}

#[test]
fn legacy_class_labels() {
    assert_eq!(LegacyClass::A.label(), "CIDR Class A");
    assert_eq!(LegacyClass::B.label(), "CIDR Class B");
    assert_eq!(LegacyClass::C.label(), "CIDR Class C");
    assert_eq!(LegacyClass::DE.label(), "CIDR Class D/E");
}

#[test]
fn private_addresses_lie_in_a_private_special_range() {
    for a in 0..=255u8 {
        for b in [0u8, 15, 16, 31, 32, 64, 127, 167, 168, 169, 254, 255] {
            let addr = Ipv4Addr::new(a, b, 3, 4);
            let private = matches!(
                SpecialRange::of(&addr),
                Some(SpecialRange::PrivateClassA)
                    | Some(SpecialRange::PrivateClassB)
                    | Some(SpecialRange::PrivateClassC)
            );
            assert_eq!(addr.is_private(), private, "{}.{}", a, b);
        }
    }
}
