use ip_decoder::address::{Address, Ipv4Addr, Ipv6Addr};

fn v6(segments: [u16; 8]) -> Ipv6Addr {
    Ipv6Addr::new(segments)
}

#[test]
fn ipv4_text_of_samples() {
    assert_eq!(Ipv4Addr::new(0, 0, 0, 0).to_text(), "0.0.0.0");
    assert_eq!(Ipv4Addr::new(10, 0, 0, 1).to_text(), "10.0.0.1");
    assert_eq!(Ipv4Addr::new(192, 168, 1, 1).to_text(), "192.168.1.1");
    assert_eq!(Ipv4Addr::new(255, 255, 255, 255).to_text(), "255.255.255.255");
    assert_eq!(Ipv4Addr::new(1, 20, 100, 109).to_text(), "1.20.100.109");
}

#[test]
fn ipv4_literals_that_are_read() {
    assert_eq!(Ipv4Addr::from_text("10.0.0.1"), Some(Ipv4Addr::new(10, 0, 0, 1)));
    assert_eq!(Ipv4Addr::from_text("0.0.0.0"), Some(Ipv4Addr::new(0, 0, 0, 0)));
    assert_eq!(
        Ipv4Addr::from_text("255.255.255.255"),
        Some(Ipv4Addr::new(255, 255, 255, 255))
    );
    assert_eq!(Ipv4Addr::from_text("8.8.4.4"), Some(Ipv4Addr::new(8, 8, 4, 4)));
}

#[test]
fn ipv4_literals_that_are_refused() {
    for text in [
        "",
        "1",
        "1.2.3",
        "1.2.3.4.5",
        "1..3.4",
        ".1.2.3",
        "1.2.3.",
        "256.0.0.1",
        "1.2.3.256",
        "1.2.3.1000",
        "01.2.3.4",
        "1.2.3.04",
        "00.0.0.0",
        "1.2.3.4 ",
        " 1.2.3.4",
        "1.2.3.+4",
        "1.2.3.-4",
        "1.2.3.a",
        "0x1.2.3.4",
        "1,2,3,4",
        "not-an-ip",
        "１.2.3.4",
    ] {
        assert_eq!(Ipv4Addr::from_text(text), None, "{:?}", text);
    }
}

#[test]
fn ipv4_text_round_trip_on_samples() {
    for value in [0u32, 1, 9, 10, 99, 100, 255, 256, 0x0A00_0001, 0xC0A8_0101, u32::MAX] {
        let addr = Ipv4Addr::from_u32(value);
        assert_eq!(Ipv4Addr::from_text(&addr.to_text()), Some(addr));
    }
}

#[test]
fn ipv4_octets_round_trip_through_text() {
    for octet in 0..=255u8 {
        let addr = Ipv4Addr::new(octet, 0, octet, 255 - octet);
        assert_eq!(Ipv4Addr::from_text(&addr.to_text()), Some(addr));
    }
}

#[test]
fn ipv6_literals_that_are_read() {
    assert_eq!(Ipv6Addr::from_text("::"), Some(v6([0, 0, 0, 0, 0, 0, 0, 0])));
    assert_eq!(Ipv6Addr::from_text("::1"), Some(v6([0, 0, 0, 0, 0, 0, 0, 1])));
    assert_eq!(Ipv6Addr::from_text("1::"), Some(v6([1, 0, 0, 0, 0, 0, 0, 0])));
    assert_eq!(
        Ipv6Addr::from_text("1:2:3:4:5:6:7:8"),
        Some(v6([1, 2, 3, 4, 5, 6, 7, 8]))
    );
    assert_eq!(
        Ipv6Addr::from_text("2001:db8::ff00:42:8329"),
        Some(v6([0x2001, 0xDB8, 0, 0, 0, 0xFF00, 0x42, 0x8329]))
    );
    assert_eq!(
        Ipv6Addr::from_text("2001:0DB8:0000:0000:0000:FF00:0042:8329"),
        Some(v6([0x2001, 0xDB8, 0, 0, 0, 0xFF00, 0x42, 0x8329]))
    );
    assert_eq!(
        Ipv6Addr::from_text("1:2:3:4:5:6:7::"),
        Some(v6([1, 2, 3, 4, 5, 6, 7, 0]))
    );
    assert_eq!(
        Ipv6Addr::from_text("::2:3:4:5:6:7:8"),
        Some(v6([0, 2, 3, 4, 5, 6, 7, 8]))
    );
    assert_eq!(
        Ipv6Addr::from_text("1:2:3::6:7:8"),
        Some(v6([1, 2, 3, 0, 0, 6, 7, 8]))
    );
    assert_eq!(
        Ipv6Addr::from_text("ffff:FFFF::aBcD"),
        Some(v6([0xFFFF, 0xFFFF, 0, 0, 0, 0, 0, 0xABCD]))
    );
}

#[test]
fn ipv6_literals_with_an_embedded_ipv4_address() {
    assert_eq!(
        Ipv6Addr::from_text("::ffff:10.0.0.1"),
        Some(v6([0, 0, 0, 0, 0, 0xFFFF, 0x0A00, 0x0001]))
    );
    assert_eq!(
        Ipv6Addr::from_text("::1.2.3.4"),
        Some(v6([0, 0, 0, 0, 0, 0, 0x0102, 0x0304]))
    );
    assert_eq!(
        Ipv6Addr::from_text("1:2:3:4:5:6:1.2.3.4"),
        Some(v6([1, 2, 3, 4, 5, 6, 0x0102, 0x0304]))
    );
    assert_eq!(
        Ipv6Addr::from_text("64:ff9b::192.0.2.33"),
        Some(v6([0x64, 0xFF9B, 0, 0, 0, 0, 0xC000, 0x0221]))
    );
    assert_eq!(
        Ipv6Addr::from_text("1:2:3:4:5::1.2.3.4"),
        Some(v6([1, 2, 3, 4, 5, 0, 0x0102, 0x0304]))
    );
}

#[test]
fn ipv6_literals_that_are_refused() {
    for text in [
        "",
        ":",
        ":::",
        "1",
        "1:2:3:4:5:6:7",
        "1:2:3:4:5:6:7:8:9",
        "1:2:3:4:5:6:7:8::",
        "::1:2:3:4:5:6:7:8",
        "1::2::3",
        "1:::2",
        ":1:2:3:4:5:6:7:8",
        "1:2:3:4:5:6:7:8:",
        ":1::",
        "::1:",
        "12345::",
        "::00001",
        "g::",
        "::g",
        "1.2.3.4::",
        "1.2.3.4:1:2:3:4:5:6",
        "1:2:3:4:5:6:7:1.2.3.4",
        "1:2:3:4:5:6::1.2.3.4",
        "::1.2.3",
        "::1.2.3.256",
        "::01.2.3.4",
        "::1 ",
        " ::1",
        "::1%eth0",
        "[::1]",
        "not-an-ip",
    ] {
        assert_eq!(Ipv6Addr::from_text(text), None, "{:?}", text);
    }
}

#[test]
fn ipv6_text_of_samples() {
    assert_eq!(v6([0, 0, 0, 0, 0, 0, 0, 0]).to_text(), "::");
    assert_eq!(v6([0, 0, 0, 0, 0, 0, 0, 1]).to_text(), "::1");
    assert_eq!(v6([1, 0, 0, 0, 0, 0, 0, 0]).to_text(), "1::");
    assert_eq!(v6([1, 2, 3, 4, 5, 6, 7, 8]).to_text(), "1:2:3:4:5:6:7:8");
    assert_eq!(
        v6([0x2001, 0xDB8, 0, 0, 0, 0xFF00, 0x42, 0x8329]).to_text(),
        "2001:db8::ff00:42:8329"
    );
    assert_eq!(
        v6([0xFFFF, 0xABCD, 0x10, 0x100, 0x1000, 0xF, 0xA0, 0xB00]).to_text(),
        "ffff:abcd:10:100:1000:f:a0:b00"
    );
}

#[test]
fn ipv6_text_leaves_out_the_first_of_the_longest_runs() {
    assert_eq!(v6([1, 0, 0, 2, 0, 0, 0, 3]).to_text(), "1:0:0:2::3");
    assert_eq!(v6([1, 0, 0, 0, 2, 0, 0, 3]).to_text(), "1::2:0:0:3");
    assert_eq!(v6([1, 0, 0, 2, 3, 0, 0, 4]).to_text(), "1::2:3:0:0:4");
    assert_eq!(v6([0, 0, 1, 0, 0, 0, 0, 0]).to_text(), "0:0:1::");
    assert_eq!(v6([0, 0, 0, 1, 0, 0, 0, 2]).to_text(), "::1:0:0:0:2");
}

#[test]
fn ipv6_text_keeps_a_single_zero_segment() {
    assert_eq!(v6([1, 0, 2, 3, 4, 5, 6, 7]).to_text(), "1:0:2:3:4:5:6:7");
    assert_eq!(v6([0, 1, 2, 3, 4, 5, 6, 7]).to_text(), "0:1:2:3:4:5:6:7");
    assert_eq!(v6([1, 2, 3, 4, 5, 6, 7, 0]).to_text(), "1:2:3:4:5:6:7:0");
    assert_eq!(v6([1, 0, 2, 0, 3, 0, 4, 0]).to_text(), "1:0:2:0:3:0:4:0");
}

#[test]
fn ipv6_text_of_mapped_and_compatible_addresses() {
    assert_eq!(
        v6([0, 0, 0, 0, 0, 0xFFFF, 0x0A00, 0x0001]).to_text(),
        "::ffff:10.0.0.1"
    );
    assert_eq!(v6([0, 0, 0, 0, 0, 0, 0x0A00, 0x0001]).to_text(), "::a00:1");
    assert_eq!(
        Ipv4Addr::new(192, 0, 2, 255).to_ipv6_mapped().to_text(),
        "::ffff:192.0.2.255"
    );
    assert_eq!(
        Ipv4Addr::new(192, 0, 2, 255).to_ipv6_compatible().to_text(),
        "::c000:2ff"
    );
}

#[test]
fn ipv6_text_round_trip_on_samples() {
    for segments in [
        [0u16, 0, 0, 0, 0, 0, 0, 0],
        [0, 0, 0, 0, 0, 0, 0, 1],
        [1, 0, 0, 0, 0, 0, 0, 0],
        [1, 2, 3, 4, 5, 6, 7, 8],
        [1, 0, 0, 2, 0, 0, 0, 3],
        [1, 0, 0, 2, 3, 0, 0, 4],
        [0, 0, 0, 0, 0, 0xFFFF, 0x0A00, 1],
        [0, 0, 0, 0, 0, 0, 0x0A00, 1],
        [0xFFFF; 8],
        [0, 1, 0, 1, 0, 1, 0, 1],
        [0xFE80, 0, 0, 0, 0x202, 0xB3FF, 0xFE1E, 0x8329],
    ] {
        let addr = v6(segments);
        assert_eq!(Ipv6Addr::from_text(&addr.to_text()), Some(addr), "{:?}", segments);
    }
}

#[test]
fn address_of_either_family_is_read() {
    assert_eq!(
        Address::from_text("10.0.0.1"),
        Some(Address::V4(Ipv4Addr::new(10, 0, 0, 1)))
    );
    assert_eq!(
        Address::from_text("::1"),
        Some(Address::V6(v6([0, 0, 0, 0, 0, 0, 0, 1])))
    );
    assert_eq!(Address::from_text("not-an-ip"), None);
    assert_eq!(Address::from_text(""), None);
    assert_eq!(Address::from_text("1.2.3.4:5"), None);
}

#[test]
fn address_text_round_trip() {
    for addr in [
        Address::V4(Ipv4Addr::new(8, 8, 8, 8)),
        Address::V6(v6([0x2001, 0xDB8, 0, 0, 0, 0, 0, 1])),
        Address::V6(v6([0, 0, 0, 0, 0, 0xFFFF, 0x0808, 0x0808])),
    ] {
        assert_eq!(Address::from_text(&addr.to_text()), Some(addr));
    }
    assert_eq!(Address::V4(Ipv4Addr::new(8, 8, 8, 8)).to_text(), "8.8.8.8");
    assert_eq!(
        Address::V6(v6([0x2001, 0xDB8, 0, 0, 0, 0, 0, 1])).to_text(),
        "2001:db8::1"
    );
}

#[test]
fn ipv6_text_follows_the_recommended_form() {
    assert_eq!(
        v6([0x2001, 0xDB8, 0, 0, 1, 0, 0, 1]).to_text(),
        "2001:db8::1:0:0:1"
    );
    assert_eq!(
        v6([0x2001, 0xDB8, 0, 1, 1, 1, 1, 1]).to_text(),
        "2001:db8:0:1:1:1:1:1"
    );
    assert_eq!(v6([0x2001, 0, 0, 1, 0, 0, 0, 1]).to_text(), "2001:0:0:1::1");
    assert_eq!(
        v6([0x2001, 0xDB8, 0, 0, 0, 0, 2, 1]).to_text(),
        "2001:db8::2:1"
    );
    assert_eq!(
        v6([0x2001, 0xDB8, 0xAAAA, 0xBBBB, 0xCCCC, 0xDDDD, 0xEEEE, 0xAAAA]).to_text(),
        "2001:db8:aaaa:bbbb:cccc:dddd:eeee:aaaa"
    );
    assert_eq!(
        v6([0, 0, 0, 0, 0, 0xFFFF, 0xC00A, 0x02FF]).to_text(),
        "::ffff:192.10.2.255"
    );
}

#[test]
fn ipv6_literals_of_one_address_in_many_forms() {
    let addr = v6([0x2001, 0xDB8, 0, 0, 1, 0, 0, 1]);
    for text in [
        "2001:db8:0:0:1:0:0:1",
        "2001:0db8:0:0:1:0:0:1",
        "2001:db8::1:0:0:1",
        "2001:db8::0:1:0:0:1",
        "2001:0db8::1:0:0:1",
        "2001:db8:0:0:1::1",
        "2001:db8:0000:0:1::1",
        "2001:DB8:0:0:1::1",
        "2001:db8:0:0:1:0:0.0.0.1",
        "2001:db8::1:0:0.0.0.1",
    ] {
        assert_eq!(Ipv6Addr::from_text(text), Some(addr), "{:?}", text);
    }
}
