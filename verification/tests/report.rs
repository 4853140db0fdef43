use ip_decoder::address::{Address, Ipv4Addr};
use ip_decoder::classify::interpret_ip;
use ip_decoder::error::InputError;
use ip_decoder::input::AddressSpec;
use ip_decoder::report::{decode, report_lines};

fn lines(input: &str) -> Vec<String> {
    decode(input).expect("the input is well formed")
}

#[test]
fn report_on_a_bare_netmask() {
    assert_eq!(
        lines("/24"),
        vec![
            ":: IP Address decoder ::",
            "IP: /24",
            "CIDR notation:   /24",
            "Net mask IP:     255.255.255.0",
        ]
    );
}

#[test]
fn report_on_a_cidr_spec() {
    assert_eq!(
        lines("10.0.0.0/8"),
        vec![
            ":: IP Address decoder ::",
            "IP: 10.0.0.0/8",
            "CIDR notation:   10.0.0.0/8",
            "IP part:         10.0.0.0",
            "Net mask part:   8",
            "Net mask calc:   4278190080",
            "Net mask hex:    FF000000",
            "Net mask IP:     255.0.0.0",
            "Loopback:         false",
            "Unspecified:      false",
            "Multicast:        false",
            "Canonicalized:    10.0.0.0",
            "IPv4:             true",
            "IPv6:             false",
            "Well-known:       Unknown",
            "Private:          true",
            "Link-local:       false",
            "Broadcast:        false",
            "Documentation:    false",
            "IPv6 compatible:  ::a00:0",
            "IPv6 mapped:      ::ffff:10.0.0.0",
            "Private network, class A, 24-bit block, 8-bit mask",
            "CIDR Class A",
        ]
    );
}

#[test]
fn report_on_a_plain_ipv4_address() {
    assert_eq!(
        lines("8.8.8.8"),
        vec![
            ":: IP Address decoder ::",
            "IP: 8.8.8.8",
            "Loopback:         false",
            "Unspecified:      false",
            "Multicast:        false",
            "Canonicalized:    8.8.8.8",
            "IPv4:             true",
            "IPv6:             false",
            "Well-known:       Google Public DNS",
            "Private:          false",
            "Link-local:       false",
            "Broadcast:        false",
            "Documentation:    false",
            "IPv6 compatible:  ::808:808",
            "IPv6 mapped:      ::ffff:8.8.8.8",
            "CIDR Class A",
        ]
    );
}

#[test]
fn report_on_192_168_1_1() {
    let report = lines("192.168.1.1");
    assert!(report.contains(&"Private:          true".to_string()));
    assert!(report.contains(&"Private network, class C, 16-bit block, 16-bit mask".to_string()));
    assert_eq!(report.last().map(String::as_str), Some("CIDR Class C"));
}

#[test]
fn report_on_a_plain_ipv6_address() {
    assert_eq!(
        lines("2001:DB8::1"),
        vec![
            ":: IP Address decoder ::",
            "IP: 2001:DB8::1",
            "Loopback:         false",
            "Unspecified:      false",
            "Multicast:        false",
            "Canonicalized:    2001:db8::1",
            "IPv4:             false",
            "IPv6:             true",
            "8193",
        ]
    );
}

#[test]
fn report_on_a_mapped_ipv6_address() {
    assert_eq!(
        lines("::ffff:127.0.0.1"),
        vec![
            ":: IP Address decoder ::",
            "IP: ::ffff:127.0.0.1",
            "Loopback:         false",
            "Unspecified:      false",
            "Multicast:        false",
            "Canonicalized:    127.0.0.1",
            "IPv4:             false",
            "IPv6:             true",
            "0",
        ]
    );
}

#[test]
fn report_on_an_ipv6_cidr_spec_with_a_long_prefix() {
    assert_eq!(
        lines("::1/64"),
        vec![
            ":: IP Address decoder ::",
            "IP: ::1/64",
            "CIDR notation:   ::1/64",
            "IP part:         ::1",
            "Net mask part:   64",
            "Loopback:         true",
            "Unspecified:      false",
            "Multicast:        false",
            "Canonicalized:    ::1",
            "IPv4:             false",
            "IPv6:             true",
            "0",
        ]
    );
}

#[test]
fn report_on_an_ipv6_cidr_spec_with_a_short_prefix() {
    let report = lines("ff02::1/16");
    assert_eq!(report[4], "Net mask part:   16");
    assert_eq!(report[5], "Net mask calc:   4294901760");
    assert_eq!(report[6], "Net mask hex:    FFFF0000");
    assert_eq!(report[7], "Net mask IP:     255.255.0.0");
    assert_eq!(report[10], "Multicast:        true");
    assert_eq!(report.last().map(String::as_str), Some("65282"));
}

#[test]
fn report_shows_the_netmask_bounds() {
    let empty = lines("0.0.0.0/0");
    assert_eq!(empty[5], "Net mask calc:   0");
    assert_eq!(empty[6], "Net mask hex:    0");
    assert_eq!(empty[7], "Net mask IP:     0.0.0.0");
    assert_eq!(empty[9], "Unspecified:      true");
    let full = lines("255.255.255.255/32");
    assert_eq!(full[5], "Net mask calc:   4294967295");
    assert_eq!(full[6], "Net mask hex:    FFFFFFFF");
    assert_eq!(full[7], "Net mask IP:     255.255.255.255");
    assert!(full.contains(&"Broadcast:        true".to_string()));
    assert_eq!(full.last().map(String::as_str), Some("CIDR Class D/E"));
}

#[test]
fn report_names_the_special_ranges() {
    let has = |input: &str, line: &str| lines(input).contains(&line.to_string());
    assert!(has("172.20.1.1", "Private network, class B, 20-bit block, 12-bit mask"));
    assert!(has("100.64.0.1", "Carrier-grade NAT range, 22-bit block, 10-bit mask"));
    assert!(has("169.254.0.1", "Link-local unicast, 16-bit block, 16-bit mask"));
    assert!(has("224.0.0.1", "Link-local multicast, 24-bit block, 8-bit mask"));
    assert!(!has("8.8.8.8", "Private network, class A, 24-bit block, 8-bit mask"));
    assert_eq!(lines("172.20.1.1").last().map(String::as_str), Some("CIDR Class B"));
}

#[test]
fn malformed_input_gives_no_report() {
    assert_eq!(decode("not-an-ip"), Err(InputError::MalformedAddress));
    assert_eq!(decode("/33"), Err(InputError::PrefixOutOfRange));
    assert_eq!(decode("/x"), Err(InputError::MalformedPrefix));
    assert_eq!(decode("10.0.0.0/40"), Err(InputError::PrefixOutOfRange));
    assert_eq!(decode(""), Err(InputError::MalformedAddress));
}

#[test]
fn facts_have_their_own_lines() {
    let facts = interpret_ip(Address::V4(Ipv4Addr::new(9, 9, 9, 9)));
    let report = facts.lines();
    assert_eq!(report.len(), 14);
    assert_eq!(report[0], "Loopback:         false");
    assert_eq!(report[6], "Well-known:       Quad9 DNS");
    assert_eq!(report[13], "CIDR Class A");
}

#[test]
fn report_on_a_given_spec() {
    let spec = AddressSpec::BarePrefix { prefix: 0 };
    assert_eq!(
        report_lines("/0", &spec),
        vec![
            ":: IP Address decoder ::",
            "IP: /0",
            "CIDR notation:   /0",
            "Net mask IP:     0.0.0.0",
        ]
    );
}
