//! IPv4 and IPv6 address values and their range predicates.

use vstd::prelude::*;

verus! {

/// An IPv4 address: a 32-bit value held as four octets, most significant first.
#[derive(Clone, Copy, Debug, PartialEq, Eq)]
pub struct Ipv4Addr {
    pub octets: [u8; 4],
}

/// An IPv6 address: a 128-bit value held as eight 16-bit segments, most
/// significant first.
#[derive(Clone, Copy, Debug, PartialEq, Eq)]
pub struct Ipv6Addr {
    pub segments: [u16; 8],
}

/// An address of either family.
#[derive(Clone, Copy, Debug, PartialEq, Eq)]
pub enum Address {
    V4(Ipv4Addr),
    V6(Ipv6Addr),
}

/// The mathematical value of an address: the octets of an IPv4 address or the
/// segments of an IPv6 address.
pub enum AddressView {
    V4(Seq<u8>),
    V6(Seq<u16>),
}

impl View for Ipv4Addr {
    type V = Seq<u8>;

    /// The four octets.
    open spec fn view(&self) -> Seq<u8> {
        self.octets@
    }
}

impl View for Ipv6Addr {
    type V = Seq<u16>;

    /// The eight segments.
    open spec fn view(&self) -> Seq<u16> {
        self.segments@
    }
}

impl View for Address {
    type V = AddressView;

    open spec fn view(&self) -> AddressView {
        match self {
            Address::V4(addr) => AddressView::V4(addr@),
            Address::V6(addr) => AddressView::V6(addr@),
        }
    }
}

/// The 32-bit value whose big-endian bytes are `octets`.
pub open spec fn octets_value(octets: Seq<u8>) -> int
    recommends
        octets.len() == 4,
{
    octets[0] * 0x100_0000 + octets[1] * 0x1_0000 + octets[2] * 0x100 + octets[3]
}

/// The big-endian bytes of a 32-bit value.
pub open spec fn value_octets(value: u32) -> Seq<u8> {
    seq![
        (value / 0x100_0000) as u8,
        (value / 0x1_0000 % 0x100) as u8,
        (value / 0x100 % 0x100) as u8,
        (value % 0x100) as u8,
    ]
}

/// Whether the IPv4 address with these octets lies in 127.0.0.0/8.
pub open spec fn ipv4_is_loopback(octets: Seq<u8>) -> bool {
    octets[0] == 127
}

/// Whether the IPv4 address with these octets is 0.0.0.0.
pub open spec fn ipv4_is_unspecified(octets: Seq<u8>) -> bool {
    octets == seq![0u8, 0u8, 0u8, 0u8]
}

/// Whether the IPv4 address with these octets lies in 224.0.0.0/4.
pub open spec fn ipv4_is_multicast(octets: Seq<u8>) -> bool {
    224 <= octets[0] <= 239
}

/// Whether the IPv4 address with these octets lies in 10.0.0.0/8,
/// 172.16.0.0/12 or 192.168.0.0/16.
pub open spec fn ipv4_is_private(octets: Seq<u8>) -> bool {
    ||| octets[0] == 10
    ||| octets[0] == 172 && 16 <= octets[1] <= 31
    ||| octets[0] == 192 && octets[1] == 168
}

/// Whether the IPv4 address with these octets lies in 169.254.0.0/16.
pub open spec fn ipv4_is_link_local(octets: Seq<u8>) -> bool {
    octets[0] == 169 && octets[1] == 254
}

/// Whether the IPv4 address with these octets is 255.255.255.255.
pub open spec fn ipv4_is_broadcast(octets: Seq<u8>) -> bool {
    octets == seq![255u8, 255u8, 255u8, 255u8]
}

/// Whether the IPv4 address with these octets lies in 192.0.2.0/24,
/// 198.51.100.0/24 or 203.0.113.0/24, the ranges set aside for documentation.
pub open spec fn ipv4_is_documentation(octets: Seq<u8>) -> bool {
    ||| octets[0] == 192 && octets[1] == 0 && octets[2] == 2
    ||| octets[0] == 198 && octets[1] == 51 && octets[2] == 100
    ||| octets[0] == 203 && octets[1] == 0 && octets[2] == 113
}

/// The segments of `::a.b.c.d`, for the octets `a`, `b`, `c`, `d`.
pub open spec fn ipv4_compatible_segments(octets: Seq<u8>) -> Seq<u16>
    recommends
        octets.len() == 4,
{
    seq![
        0u16,
        0u16,
        0u16,
        0u16,
        0u16,
        0u16,
        (octets[0] * 0x100 + octets[1]) as u16,
        (octets[2] * 0x100 + octets[3]) as u16,
    ]
}

/// The segments of `::ffff:a.b.c.d`, for the octets `a`, `b`, `c`, `d`.
pub open spec fn ipv4_mapped_segments(octets: Seq<u8>) -> Seq<u16>
    recommends
        octets.len() == 4,
{
    seq![
        0u16,
        0u16,
        0u16,
        0u16,
        0u16,
        0xFFFFu16,
        (octets[0] * 0x100 + octets[1]) as u16,
        (octets[2] * 0x100 + octets[3]) as u16,
    ]
}

/// Whether the IPv6 address with these segments is `::1`.
pub open spec fn ipv6_is_loopback(segments: Seq<u16>) -> bool {
    segments == seq![0u16, 0u16, 0u16, 0u16, 0u16, 0u16, 0u16, 1u16]
}

/// Whether the IPv6 address with these segments is `::`.
pub open spec fn ipv6_is_unspecified(segments: Seq<u16>) -> bool {
    segments == seq![0u16, 0u16, 0u16, 0u16, 0u16, 0u16, 0u16, 0u16]
}

/// Whether the IPv6 address with these segments lies in `ff00::/8`.
pub open spec fn ipv6_is_multicast(segments: Seq<u16>) -> bool {
    segments[0] >= 0xFF00
}

/// Whether `segments` are those of an IPv4-mapped address, `::ffff:0:0/96`.
pub open spec fn is_ipv4_mapped(segments: Seq<u16>) -> bool
    recommends
        segments.len() == 8,
{
    &&& segments[0] == 0
    &&& segments[1] == 0
    &&& segments[2] == 0
    &&& segments[3] == 0
    &&& segments[4] == 0
    &&& segments[5] == 0xFFFF
}

/// The octets held in the last two of eight segments.
pub open spec fn embedded_octets(segments: Seq<u16>) -> Seq<u8>
    recommends
        segments.len() == 8,
{
    seq![
        (segments[6] / 0x100) as u8,
        (segments[6] % 0x100) as u8,
        (segments[7] / 0x100) as u8,
        (segments[7] % 0x100) as u8,
    ]
}

impl AddressView {
    /// Whether the value has the size of its family: four octets or eight
    /// segments.
    pub open spec fn well_formed(self) -> bool {
        match self {
            AddressView::V4(octets) => octets.len() == 4,
            AddressView::V6(segments) => segments.len() == 8,
        }
    }

    /// Whether the address is a loopback address of its family.
    pub open spec fn is_loopback(self) -> bool {
        match self {
            AddressView::V4(octets) => ipv4_is_loopback(octets),
            AddressView::V6(segments) => ipv6_is_loopback(segments),
        }
    }

    /// Whether the address is the unspecified address of its family.
    pub open spec fn is_unspecified(self) -> bool {
        match self {
            AddressView::V4(octets) => ipv4_is_unspecified(octets),
            AddressView::V6(segments) => ipv6_is_unspecified(segments),
        }
    }

    /// Whether the address is a multicast address of its family.
    pub open spec fn is_multicast(self) -> bool {
        match self {
            AddressView::V4(octets) => ipv4_is_multicast(octets),
            AddressView::V6(segments) => ipv6_is_multicast(segments),
        }
    }

    /// The canonical form: the IPv4 address that an IPv4-mapped IPv6 address
    /// stands for, and the address itself in every other case.
    pub open spec fn canonical(self) -> AddressView {
        match self {
            AddressView::V4(octets) => self,
            AddressView::V6(segments) => if is_ipv4_mapped(segments) {
                AddressView::V4(embedded_octets(segments))
            } else {
                self
            },
        }
    }
}

/// Splitting a 32-bit value into octets and joining them again gives the value
/// back, and so does joining four octets and splitting the result.
pub proof fn lemma_octets_value_inverse(value: u32, octets: Seq<u8>)
    requires
        octets.len() == 4,
    ensures
        octets_value(value_octets(value)) == value,
        0 <= octets_value(octets) <= u32::MAX,
        value_octets(octets_value(octets) as u32) == octets,
{
    let joined = octets_value(octets) as u32;
    assert(joined / 0x1_0000u32 == octets[0] * 0x100 + octets[1]);
}

/// The canonical form of an address is its own canonical form, and it is an
/// address of the size of its family.
pub proof fn lemma_canonical_idempotent(addr: AddressView)
    requires
        addr.well_formed(),
    ensures
        addr.canonical().well_formed(),
        addr.canonical().canonical() == addr.canonical(),
{
}

/// An IPv4 address is what its IPv4-mapped IPv6 address stands for.
pub proof fn lemma_mapped_round_trip(octets: Seq<u8>)
    requires
        octets.len() == 4,
    ensures
        is_ipv4_mapped(ipv4_mapped_segments(octets)),
        embedded_octets(ipv4_mapped_segments(octets)) == octets,
        AddressView::V6(ipv4_mapped_segments(octets)).canonical() == AddressView::V4(octets),
{
}

impl Ipv4Addr {
    /// Builds an address from its octets.
    pub fn new(a: u8, b: u8, c: u8, d: u8) -> (addr: Ipv4Addr)
        ensures
            addr@ == seq![a, b, c, d],
    {
        Ipv4Addr { octets: [a, b, c, d] }
    }

    /// Builds the address that has the given 32-bit value.
    pub fn from_u32(value: u32) -> (addr: Ipv4Addr)
        ensures
            addr@ == value_octets(value),
    {
        Ipv4Addr {
            octets: [
                (value / 0x100_0000) as u8,
                (value / 0x1_0000 % 0x100) as u8,
                (value / 0x100 % 0x100) as u8,
                (value % 0x100) as u8,
            ],
        }
    }

    /// The 32-bit value of the address.
    pub fn to_u32(&self) -> (value: u32)
        ensures
            value == octets_value(self@),
    {
        (self.octets[0] as u32) * 0x100_0000 + (self.octets[1] as u32) * 0x1_0000 + (
        self.octets[2] as u32) * 0x100 + (self.octets[3] as u32)
    }

    /// The four octets of the address.
    pub fn octets(&self) -> (octets: [u8; 4])
        ensures
            octets@ == self@,
    {
        self.octets
    }

    /// Whether the address has exactly these octets.
    pub fn has_octets(&self, a: u8, b: u8, c: u8, d: u8) -> (same: bool)
        ensures
            same == (self@ == seq![a, b, c, d]),
    {
        let same = self.octets[0] == a && self.octets[1] == b && self.octets[2] == c
            && self.octets[3] == d;
        assert(same ==> self@ =~= seq![a, b, c, d]);
        same
    }

    /// Whether the address lies in 127.0.0.0/8.
    pub fn is_loopback(&self) -> (b: bool)
        ensures
            b == ipv4_is_loopback(self@),
    {
        self.octets[0] == 127
    }

    /// Whether the address is 0.0.0.0.
    pub fn is_unspecified(&self) -> (b: bool)
        ensures
            b == ipv4_is_unspecified(self@),
    {
        self.has_octets(0, 0, 0, 0)
    }

    /// Whether the address lies in 224.0.0.0/4.
    pub fn is_multicast(&self) -> (b: bool)
        ensures
            b == ipv4_is_multicast(self@),
    {
        self.octets[0] >= 224 && self.octets[0] <= 239
    }

    /// Whether the address lies in one of the private ranges.
    pub fn is_private(&self) -> (b: bool)
        ensures
            b == ipv4_is_private(self@),
    {
        self.octets[0] == 10 || (self.octets[0] == 172 && self.octets[1] >= 16 && self.octets[1]
            <= 31) || (self.octets[0] == 192 && self.octets[1] == 168)
    }

    /// Whether the address lies in 169.254.0.0/16.
    pub fn is_link_local(&self) -> (b: bool)
        ensures
            b == ipv4_is_link_local(self@),
    {
        self.octets[0] == 169 && self.octets[1] == 254
    }

    /// Whether the address is 255.255.255.255.
    pub fn is_broadcast(&self) -> (b: bool)
        ensures
            b == ipv4_is_broadcast(self@),
    {
        self.has_octets(255, 255, 255, 255)
    }

    /// Whether the address lies in one of the ranges set aside for
    /// documentation.
    pub fn is_documentation(&self) -> (b: bool)
        ensures
            b == ipv4_is_documentation(self@),
    {
        (self.octets[0] == 192 && self.octets[1] == 0 && self.octets[2] == 2) || (self.octets[0]
            == 198 && self.octets[1] == 51 && self.octets[2] == 100) || (self.octets[0] == 203
            && self.octets[1] == 0 && self.octets[2] == 113)
    }

    /// The IPv4-compatible IPv6 address `::a.b.c.d`.
    pub fn to_ipv6_compatible(&self) -> (addr: Ipv6Addr)
        ensures
            addr@ == ipv4_compatible_segments(self@),
    {
        let hi: u16 = (self.octets[0] as u16) * 0x100 + (self.octets[1] as u16);
        let lo: u16 = (self.octets[2] as u16) * 0x100 + (self.octets[3] as u16);
        Ipv6Addr { segments: [0, 0, 0, 0, 0, 0, hi, lo] }
    }

    /// The IPv4-mapped IPv6 address `::ffff:a.b.c.d`.
    pub fn to_ipv6_mapped(&self) -> (addr: Ipv6Addr)
        ensures
            addr@ == ipv4_mapped_segments(self@),
    {
        let hi: u16 = (self.octets[0] as u16) * 0x100 + (self.octets[1] as u16);
        let lo: u16 = (self.octets[2] as u16) * 0x100 + (self.octets[3] as u16);
        Ipv6Addr { segments: [0, 0, 0, 0, 0, 0xFFFF, hi, lo] }
    }
}

impl Ipv6Addr {
    /// Builds an address from its segments.
    pub fn new(segments: [u16; 8]) -> (addr: Ipv6Addr)
        ensures
            addr@ == segments@,
    {
        Ipv6Addr { segments }
    }

    /// The eight segments of the address.
    pub fn segments(&self) -> (segments: [u16; 8])
        ensures
            segments@ == self@,
    {
        self.segments
    }

    /// Whether the address is `::1`.
    pub fn is_loopback(&self) -> (b: bool)
        ensures
            b == ipv6_is_loopback(self@),
    {
        let s = &self.segments;
        let b = s[0] == 0 && s[1] == 0 && s[2] == 0 && s[3] == 0 && s[4] == 0 && s[5] == 0
            && s[6] == 0 && s[7] == 1;
        assert(b ==> self@ =~= seq![0u16, 0u16, 0u16, 0u16, 0u16, 0u16, 0u16, 1u16]);
        b
    }

    /// Whether the address is `::`.
    pub fn is_unspecified(&self) -> (b: bool)
        ensures
            b == ipv6_is_unspecified(self@),
    {
        let s = &self.segments;
        let b = s[0] == 0 && s[1] == 0 && s[2] == 0 && s[3] == 0 && s[4] == 0 && s[5] == 0
            && s[6] == 0 && s[7] == 0;
        assert(b ==> self@ =~= seq![0u16, 0u16, 0u16, 0u16, 0u16, 0u16, 0u16, 0u16]);
        b
    }

    /// Whether the address lies in `ff00::/8`.
    pub fn is_multicast(&self) -> (b: bool)
        ensures
            b == ipv6_is_multicast(self@),
    {
        self.segments[0] >= 0xFF00
    }

    /// The IPv4 address that an IPv4-mapped address stands for; `None` for
    /// every other address.
    pub fn to_ipv4_mapped(&self) -> (mapped: Option<Ipv4Addr>)
        ensures
            mapped is Some <==> is_ipv4_mapped(self@),
            mapped matches Some(v4) ==> v4@ == embedded_octets(self@),
    {
        let s = &self.segments;
        if s[0] == 0 && s[1] == 0 && s[2] == 0 && s[3] == 0 && s[4] == 0 && s[5] == 0xFFFF {
            Some(
                Ipv4Addr {
                    octets: [
                        (s[6] / 0x100) as u8,
                        (s[6] % 0x100) as u8,
                        (s[7] / 0x100) as u8,
                        (s[7] % 0x100) as u8,
                    ],
                },
            )
        } else {
            None
        }
    }
}

impl Address {
    /// Whether the address is an IPv4 address.
    pub fn is_ipv4(&self) -> (b: bool)
        ensures
            b == (self@ is V4),
    {
        match self {
            Address::V4(_) => true,
            Address::V6(_) => false,
        }
    }

    /// Whether the address is an IPv6 address.
    pub fn is_ipv6(&self) -> (b: bool)
        ensures
            b == (self@ is V6),
    {
        match self {
            Address::V4(_) => false,
            Address::V6(_) => true,
        }
    }

    /// Whether the address is a loopback address of its family.
    pub fn is_loopback(&self) -> (b: bool)
        ensures
            b == self@.is_loopback(),
    {
        match self {
            Address::V4(a) => a.is_loopback(),
            Address::V6(a) => a.is_loopback(),
        }
    }

    /// Whether the address is the unspecified address of its family.
    pub fn is_unspecified(&self) -> (b: bool)
        ensures
            b == self@.is_unspecified(),
    {
        match self {
            Address::V4(a) => a.is_unspecified(),
            Address::V6(a) => a.is_unspecified(),
        }
    }

    /// Whether the address is a multicast address of its family.
    pub fn is_multicast(&self) -> (b: bool)
        ensures
            b == self@.is_multicast(),
    {
        match self {
            Address::V4(a) => a.is_multicast(),
            Address::V6(a) => a.is_multicast(),
        }
    }

    /// The canonical form of the address.
    pub fn to_canonical(&self) -> (canonical: Address)
        ensures
            canonical@ == self@.canonical(),
    {
        match self {
            Address::V4(a) => Address::V4(*a),
            Address::V6(a) => match a.to_ipv4_mapped() {
                Some(v4) => Address::V4(v4),
                None => Address::V6(*a),
            },
        }
    }
}

} // verus!
