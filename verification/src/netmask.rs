//! Conversion from a CIDR prefix length to a 32-bit netmask.

use crate::address::{octets_value, value_octets, Ipv4Addr};
use crate::digits::decimal_text;
use crate::dotted::{ipv4_text, ipv4_value, lemma_ipv4_text_value};
use crate::error::InputError;
use crate::text::join;
use vstd::prelude::*;

verus! {

/// The netmask of a prefix length. The prefix length is at most 32.
#[derive(Clone, Copy, Debug, PartialEq, Eq)]
pub struct Netmask {
    prefix: u8,
}

impl View for Netmask {
    type V = u8;

    /// The prefix length.
    closed spec fn view(&self) -> u8 {
        self.prefix
    }
}

/// The 32-bit mask of a prefix length: all ones, shifted left by the number of
/// host bits and cut to 32 bits. Its top `prefix` bits are one, the others zero.
pub open spec fn netmask_value(prefix: u8) -> u32
    recommends
        prefix <= 32,
{
    ((0xFFFF_FFFFu64 << ((32 - prefix) as u64)) & 0xFFFF_FFFFu64) as u32
}

/// The dotted-decimal notation of the mask of a prefix length.
pub open spec fn netmask_text(prefix: u8) -> Seq<char>
    recommends
        prefix <= 32,
{
    ipv4_text(value_octets(netmask_value(prefix)))
}

/// Bit `31 - i` of the mask is set exactly for the `prefix` first values of
/// `i`: the mask is filled from the left.
pub proof fn lemma_netmask_bits(prefix: u8, i: u32)
    requires
        prefix <= 32,
        i < 32,
    ensures
        ((netmask_value(prefix) >> (31 - i) as u32) & 1 == 1) <==> i < prefix,
{
    let p = prefix as u64;
    let i = i as u64;
    assert((((((0xFFFF_FFFFu64 << ((32 - p) as u64)) & 0xFFFF_FFFFu64) as u32) >> (
    31 - i) as u32) & 1 == 1) <==> i < p) by (bit_vector)
        requires
            p <= 32,
            i < 32,
    ;
}

/// The mask of the empty prefix is all zeros, written `0.0.0.0`; that of the
/// full prefix is all ones, written `255.255.255.255`.
pub proof fn lemma_netmask_bounds()
    ensures
        netmask_value(0) == 0,
        netmask_value(32) == 0xFFFF_FFFFu32,
        value_octets(netmask_value(0)) == seq![0u8, 0u8, 0u8, 0u8],
        value_octets(netmask_value(32)) == seq![255u8, 255u8, 255u8, 255u8],
        netmask_text(0) == "0.0.0.0"@,
        netmask_text(32) == "255.255.255.255"@,
{
    assert(netmask_value(0) == 0) by (bit_vector);
    assert(netmask_value(32) == 0xFFFF_FFFFu32) by (bit_vector);
    reveal_with_fuel(decimal_text, 4);
    reveal_with_fuel(join, 5);
    reveal_strlit("0.0.0.0");
    reveal_strlit("255.255.255.255");
}

/// Two prefix lengths that have the same mask are the same.
pub proof fn lemma_netmask_injective(a: u8, b: u8)
    requires
        a <= 32,
        b <= 32,
        netmask_value(a) == netmask_value(b),
    ensures
        a == b,
{
    let p = a as u64;
    let q = b as u64;
    assert(p <= 32 && q <= 32 && ((0xFFFF_FFFFu64 << ((32 - p) as u64)) & 0xFFFF_FFFFu64) as u32
        == ((0xFFFF_FFFFu64 << ((32 - q) as u64)) & 0xFFFF_FFFFu64) as u32 ==> p == q)
        by (bit_vector);
}

/// Reading the dotted-decimal notation of a mask gives the octets of the mask,
/// and these have the mask's 32-bit value.
pub proof fn lemma_netmask_round_trip(prefix: u8)
    requires
        prefix <= 32,
    ensures
        ipv4_value(netmask_text(prefix)) == Some(value_octets(netmask_value(prefix))),
        octets_value(ipv4_value(netmask_text(prefix)).unwrap()) == netmask_value(prefix),
{
    lemma_ipv4_text_value(value_octets(netmask_value(prefix)));
}

impl Netmask {
    #[verifier::type_invariant]
    spec fn in_range(self) -> bool {
        self.prefix <= 32
    }

    /// The netmask of a prefix length, which is refused if it is above 32.
    pub fn new(prefix: u8) -> (made: Result<Netmask, InputError>)
        ensures
            match made {
                Ok(mask) => prefix <= 32 && mask@ == prefix,
                Err(e) => prefix > 32 && e == InputError::PrefixOutOfRange,
            },
    {
        if prefix <= 32 {
            Ok(Netmask { prefix })
        } else {
            Err(InputError::PrefixOutOfRange)
        }
    }

    /// The netmask that has the given 32-bit value, if the value is the mask
    /// of a prefix length.
    pub fn from_value(value: u32) -> (found: Option<Netmask>)
        ensures
            match found {
                Some(mask) => mask@ <= 32 && netmask_value(mask@) == value,
                None => forall|prefix: u8| prefix <= 32 ==> netmask_value(prefix) != value,
            },
    {
        let mut prefix: u8 = 0;
        while prefix <= 32
            invariant
                prefix <= 33,
                forall|shorter: u8| shorter < prefix ==> netmask_value(shorter) != value,
            decreases 33 - prefix,
        {
            if calculate_netmask(prefix) == value {
                return Some(Netmask { prefix });
            }
            prefix += 1;
        }
        None
    }

    /// The prefix length.
    pub fn prefix(&self) -> (prefix: u8)
        ensures
            prefix == self@,
            prefix <= 32,
    {
        proof {
            use_type_invariant(self);
        }
        self.prefix
    }

    /// The 32-bit value of the mask.
    pub fn value(&self) -> (value: u32)
        ensures
            value == netmask_value(self@),
    {
        calculate_netmask(self.prefix())
    }

    /// The four octets of the mask, most significant first.
    pub fn octets(&self) -> (octets: [u8; 4])
        ensures
            octets@ == value_octets(netmask_value(self@)),
    {
        Ipv4Addr::from_u32(self.value()).octets()
    }

    /// The dotted-decimal notation of the mask.
    pub fn to_text(&self) -> (text: String)
        ensures
            text@ == netmask_text(self@),
    {
        convert_cidr_pfx_to_netmask(self.prefix())
    }
}

/// Computes the 32-bit netmask of a prefix length.
pub fn calculate_netmask(mask: u8) -> (netmask: u32)
    requires
        mask <= 32,
    ensures
        netmask == netmask_value(mask),
{
    if mask == 0 {
        assert(netmask_value(0) == 0) by (bit_vector);
        0
    } else {
        let shift: u32 = 32 - mask as u32;
        assert(0xFFFF_FFFFu32 << shift == ((0xFFFF_FFFFu64 << (shift as u64))
            & 0xFFFF_FFFFu64) as u32) by (bit_vector)
            requires
                shift < 32,
        ;
        0xFFFF_FFFFu32 << shift
    }
}

/// Renders the netmask of a prefix length in dotted-decimal notation.
pub fn convert_cidr_pfx_to_netmask(mask_pre: u8) -> (text: String)
    requires
        mask_pre <= 32,
    ensures
        text@ == netmask_text(mask_pre),
{
    let netmask = calculate_netmask(mask_pre);
    Ipv4Addr::from_u32(netmask).to_text()
}

} // verus!
