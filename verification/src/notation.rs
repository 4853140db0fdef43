//! The textual notation of addresses of either family.

use crate::address::{Address, AddressView, Ipv4Addr, Ipv6Addr};
use crate::colon_hex::{
    ipv6_text, ipv6_value, lemma_ipv6_text_has_colon, lemma_ipv6_text_value,
    lemma_ipv6_value_has_colon,
};
use crate::dotted::{ipv4_text, ipv4_value, lemma_colon_is_no_ipv4, lemma_ipv4_text_value};
use crate::text::chars_of;
use vstd::prelude::*;

verus! {

/// The address that `s` denotes: an IPv4 address where `s` is a
/// dotted-decimal notation, else an IPv6 address where `s` is a
/// colon-hexadecimal notation. `None` for every other text.
pub open spec fn address_value(s: Seq<char>) -> Option<AddressView> {
    match ipv4_value(s) {
        Some(octets) => Some(AddressView::V4(octets)),
        None => match ipv6_value(s) {
            Some(segments) => Some(AddressView::V6(segments)),
            None => None,
        },
    }
}

/// The notation of an address: dotted-decimal for IPv4, colon-hexadecimal for
/// IPv6.
pub open spec fn address_text(addr: AddressView) -> Seq<char> {
    match addr {
        AddressView::V4(octets) => ipv4_text(octets),
        AddressView::V6(segments) => ipv6_text(segments),
    }
}

/// A text denotes only addresses of the size of their family.
pub proof fn lemma_address_value_well_formed(s: Seq<char>)
    ensures
        address_value(s) matches Some(addr) ==> addr.well_formed(),
{
}

/// No text denotes both an IPv4 address and an IPv6 address.
pub proof fn lemma_one_family(s: Seq<char>)
    ensures
        !(ipv4_value(s) is Some && ipv6_value(s) is Some),
{
    if ipv6_value(s) is Some {
        lemma_ipv6_value_has_colon(s);
        lemma_colon_is_no_ipv4(s);
    }
}

/// Reading the notation of an address gives the address.
pub proof fn lemma_address_text_value(addr: AddressView)
    requires
        addr.well_formed(),
    ensures
        address_value(address_text(addr)) == Some(addr),
{
    match addr {
        AddressView::V4(octets) => {
            lemma_ipv4_text_value(octets);
        },
        AddressView::V6(segments) => {
            lemma_ipv6_text_has_colon(segments);
            lemma_colon_is_no_ipv4(ipv6_text(segments));
            lemma_ipv6_text_value(segments);
        },
    }
}

impl Address {
    /// Reads an address of either family.
    pub fn from_chars(s: &[char]) -> (parsed: Option<Address>)
        ensures
            parsed is Some <==> address_value(s@) is Some,
            parsed matches Some(addr) ==> address_value(s@) == Some(addr@),
    {
        match Ipv4Addr::from_chars(s) {
            Some(addr) => Some(Address::V4(addr)),
            None => match Ipv6Addr::from_chars(s) {
                Some(addr) => Some(Address::V6(addr)),
                None => None,
            },
        }
    }

    /// Reads an address of either family.
    pub fn from_text(s: &str) -> (parsed: Option<Address>)
        ensures
            parsed is Some <==> address_value(s@) is Some,
            parsed matches Some(addr) ==> address_value(s@) == Some(addr@),
    {
        let chars = chars_of(s);
        Address::from_chars(chars.as_slice())
    }

    /// Appends the notation of the address to `out`.
    pub fn append_text(&self, out: &mut String)
        ensures
            final(out)@ == old(out)@ + address_text(self@),
    {
        match self {
            Address::V4(addr) => addr.append_text(out),
            Address::V6(addr) => addr.append_text(out),
        }
    }

    /// The notation of the address.
    pub fn to_text(&self) -> (text: String)
        ensures
            text@ == address_text(self@),
    {
        match self {
            Address::V4(addr) => addr.to_text(),
            Address::V6(addr) => addr.to_text(),
        }
    }
}

} // verus!
