use ip_decoder::address::Ipv4Addr;
use ip_decoder::error::InputError;
use ip_decoder::netmask::{calculate_netmask, convert_cidr_pfx_to_netmask, Netmask};

fn closed_form(prefix: u8) -> u32 {
    ((0xFFFF_FFFFu64 << (32 - prefix as u32)) & 0xFFFF_FFFF) as u32
}

#[test]
fn netmask_of_24_bits() {
    assert_eq!(calculate_netmask(24), 0xFFFF_FF00);
    assert_eq!(convert_cidr_pfx_to_netmask(24), "255.255.255.0");
}

#[test]
fn netmask_of_8_bits() {
    assert_eq!(calculate_netmask(8), 4278190080);
    assert_eq!(calculate_netmask(8), 0xFF00_0000);
    assert_eq!(convert_cidr_pfx_to_netmask(8), "255.0.0.0");
}

#[test]
fn netmask_value_matches_closed_form_for_every_prefix() {
    for prefix in 0..=32u8 {
        assert_eq!(calculate_netmask(prefix), closed_form(prefix), "prefix {}", prefix);
    }
}

#[test]
fn netmask_text_matches_closed_form_for_every_prefix() {
    for prefix in 0..=32u8 {
        let mask = closed_form(prefix);
        let expected = format!(
            "{}.{}.{}.{}",
            mask >> 24,
            (mask >> 16) & 0xFF,
            (mask >> 8) & 0xFF,
            mask & 0xFF
        );
        assert_eq!(convert_cidr_pfx_to_netmask(prefix), expected, "prefix {}", prefix);
    }
}

#[test]
fn netmask_has_its_top_bits_set() {
    for prefix in 0..=32u8 {
        let mask = calculate_netmask(prefix);
        assert_eq!(mask.leading_ones(), prefix as u32);
        assert_eq!(mask.count_ones(), prefix as u32);
    }
}

#[test]
fn netmask_of_empty_prefix_is_all_zero() {
    assert_eq!(calculate_netmask(0), 0);
    assert_eq!(convert_cidr_pfx_to_netmask(0), "0.0.0.0");
}

#[test]
fn netmask_of_full_prefix_is_all_one() {
    assert_eq!(calculate_netmask(32), 0xFFFF_FFFF);
    assert_eq!(convert_cidr_pfx_to_netmask(32), "255.255.255.255");
}

#[test]
fn netmask_text_reads_back_to_the_same_value() {
    for prefix in 0..=32u8 {
        let text = convert_cidr_pfx_to_netmask(prefix);
        let addr = Ipv4Addr::from_text(&text).expect("a netmask is an IPv4 literal");
        assert_eq!(addr.to_u32(), calculate_netmask(prefix), "prefix {}", prefix);
    }
}

#[test]
fn netmask_texts_of_the_octet_boundaries() {
    assert_eq!(convert_cidr_pfx_to_netmask(1), "128.0.0.0");
    assert_eq!(convert_cidr_pfx_to_netmask(9), "255.128.0.0");
    assert_eq!(convert_cidr_pfx_to_netmask(16), "255.255.0.0");
    assert_eq!(convert_cidr_pfx_to_netmask(20), "255.255.240.0");
    assert_eq!(convert_cidr_pfx_to_netmask(31), "255.255.255.254");
}

#[test]
fn netmask_of_a_prefix_in_range() {
    let mask = Netmask::new(24).expect("24 is a prefix length");
    assert_eq!(mask.prefix(), 24);
    assert_eq!(mask.value(), 0xFFFF_FF00);
    assert_eq!(mask.octets(), [255, 255, 255, 0]);
    assert_eq!(mask.to_text(), "255.255.255.0");
}

#[test]
fn netmask_of_a_prefix_out_of_range_is_refused() {
    assert!(Netmask::new(32).is_ok());
    for prefix in 33..=255u8 {
        assert_eq!(Netmask::new(prefix), Err(InputError::PrefixOutOfRange));
    }
}

#[test]
fn netmask_octets_of_every_prefix() {
    for prefix in 0..=32u8 {
        let mask = Netmask::new(prefix).expect("a prefix length up to 32");
        assert_eq!(mask.value(), closed_form(prefix));
        assert_eq!(mask.octets(), closed_form(prefix).to_be_bytes());
    }
}

#[test]
fn netmask_is_found_from_its_value() {
    for prefix in 0..=32u8 {
        let found = Netmask::from_value(closed_form(prefix)).expect("the value of a mask");
        assert_eq!(found.prefix(), prefix);
    }
    assert_eq!(Netmask::from_value(0xFFFF_FF00).map(|mask| mask.prefix()), Some(24));
}

#[test]
fn values_that_are_no_netmask() {
    for value in [1u32, 0x0000_00FF, 0xFF00_FF00, 0x7FFF_FFFF, 0xFFFF_FF01, 0x8000_0001] {
        assert_eq!(Netmask::from_value(value), None, "{:#x}", value);
    }
}
