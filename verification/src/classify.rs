//! Classification of an address against fixed tables of ranges.

use crate::address::{
    ipv4_compatible_segments, ipv4_is_broadcast, ipv4_is_documentation, ipv4_is_link_local,
    ipv4_is_private, ipv4_mapped_segments, Address, AddressView, Ipv4Addr, Ipv6Addr,
};
use crate::table::{first_match, lemma_first_match, lookup, rows_disjoint, RangeRow};
use vstd::prelude::*;
use vstd::string::StringExecFns;

verus! {

/// The operator of a well-known public resolver.
#[derive(Clone, Copy, Debug, PartialEq, Eq, Structural)]
pub enum WellKnown {
    GooglePublicDns,
    CloudflareDns,
    Level3Dns,
    Quad9Dns,
    Unknown,
}

/// A named special-use range of IPv4 addresses.
#[derive(Clone, Copy, Debug, PartialEq, Eq, Structural)]
pub enum SpecialRange {
    PrivateClassA,
    PrivateClassB,
    PrivateClassC,
    CarrierGradeNat,
    LinkLocalUnicast,
    LinkLocalMulticast,
}

/// The class that an IPv4 address had before classless routing.
#[derive(Clone, Copy, Debug, PartialEq, Eq, Structural)]
pub enum LegacyClass {
    A,
    B,
    C,
    DE,
}

/// What is known of an IPv4 address.
#[derive(Clone, Copy, Debug, PartialEq, Eq)]
pub struct Ipv4Facts {
    pub well_known: WellKnown,
    pub private: bool,
    pub link_local: bool,
    pub broadcast: bool,
    pub documentation: bool,
    pub ipv6_compatible: Ipv6Addr,
    pub ipv6_mapped: Ipv6Addr,
    pub special_range: Option<SpecialRange>,
    pub legacy_class: LegacyClass,
}

/// What is known of an IPv6 address.
#[derive(Clone, Copy, Debug, PartialEq, Eq)]
pub struct Ipv6Facts {
    pub first_segment: u16,
}

/// The facts that depend on the family of the address.
#[derive(Clone, Copy, Debug, PartialEq, Eq)]
pub enum FamilyFacts {
    V4(Ipv4Facts),
    V6(Ipv6Facts),
}

/// What is known of an address.
#[derive(Clone, Copy, Debug, PartialEq, Eq)]
pub struct ClassificationResult {
    pub address: Address,
    pub loopback: bool,
    pub unspecified: bool,
    pub multicast: bool,
    pub canonical: Address,
    pub ipv4: bool,
    pub ipv6: bool,
    pub family: FamilyFacts,
}

/// The mathematical value of `Ipv4Facts`.
pub struct Ipv4FactsView {
    pub well_known: WellKnown,
    pub private: bool,
    pub link_local: bool,
    pub broadcast: bool,
    pub documentation: bool,
    pub ipv6_compatible: Seq<u16>,
    pub ipv6_mapped: Seq<u16>,
    pub special_range: Option<SpecialRange>,
    pub legacy_class: LegacyClass,
}

/// The mathematical value of `FamilyFacts`.
pub enum FamilyFactsView {
    V4(Ipv4FactsView),
    V6(Ipv6Facts),
}

/// The mathematical value of a `ClassificationResult`.
pub struct ClassificationView {
    pub address: AddressView,
    pub loopback: bool,
    pub unspecified: bool,
    pub multicast: bool,
    pub canonical: AddressView,
    pub ipv4: bool,
    pub ipv6: bool,
    pub family: FamilyFactsView,
}

impl View for Ipv4Facts {
    type V = Ipv4FactsView;

    open spec fn view(&self) -> Ipv4FactsView {
        Ipv4FactsView {
            well_known: self.well_known,
            private: self.private,
            link_local: self.link_local,
            broadcast: self.broadcast,
            documentation: self.documentation,
            ipv6_compatible: self.ipv6_compatible@,
            ipv6_mapped: self.ipv6_mapped@,
            special_range: self.special_range,
            legacy_class: self.legacy_class,
        }
    }
}

impl View for FamilyFacts {
    type V = FamilyFactsView;

    open spec fn view(&self) -> FamilyFactsView {
        match self {
            FamilyFacts::V4(facts) => FamilyFactsView::V4(facts@),
            FamilyFacts::V6(facts) => FamilyFactsView::V6(*facts),
        }
    }
}

impl View for ClassificationResult {
    type V = ClassificationView;

    open spec fn view(&self) -> ClassificationView {
        ClassificationView {
            address: self.address@,
            loopback: self.loopback,
            unspecified: self.unspecified,
            multicast: self.multicast,
            canonical: self.canonical@,
            ipv4: self.ipv4,
            ipv6: self.ipv6,
            family: self.family@,
        }
    }
}

/// The table of the well-known public resolvers: 8.8.8.8 and 8.8.4.4 are
/// Google's, 1.1.1.1 and 1.0.0.1 Cloudflare's, 4.2.2.1 to 4.2.2.6 Level 3's,
/// 9.9.9.9 is Quad9's.
pub open spec fn well_known_rows() -> Seq<RangeRow<WellKnown>> {
    seq![
        RangeRow::of([8, 8, 8, 8], [8, 8, 8, 8], WellKnown::GooglePublicDns),
        RangeRow::of([8, 8, 4, 4], [8, 8, 4, 4], WellKnown::GooglePublicDns),
        RangeRow::of([1, 1, 1, 1], [1, 1, 1, 1], WellKnown::CloudflareDns),
        RangeRow::of([1, 0, 0, 1], [1, 0, 0, 1], WellKnown::CloudflareDns),
        RangeRow::of([4, 2, 2, 1], [4, 2, 2, 6], WellKnown::Level3Dns),
        RangeRow::of([9, 9, 9, 9], [9, 9, 9, 9], WellKnown::Quad9Dns),
    ]
}

/// The table of the special-use ranges, in the order in which it is searched:
/// 10/8, 172.16/12, 192.168/16, 100.64/10, 169.254/16, 224/8.
pub open spec fn special_range_rows() -> Seq<RangeRow<SpecialRange>> {
    seq![
        RangeRow::of([10, 0, 0, 0], [10, 255, 255, 255], SpecialRange::PrivateClassA),
        RangeRow::of([172, 16, 0, 0], [172, 31, 255, 255], SpecialRange::PrivateClassB),
        RangeRow::of([192, 168, 0, 0], [192, 168, 255, 255], SpecialRange::PrivateClassC),
        RangeRow::of([100, 64, 0, 0], [100, 127, 255, 255], SpecialRange::CarrierGradeNat),
        RangeRow::of([169, 254, 0, 0], [169, 254, 255, 255], SpecialRange::LinkLocalUnicast),
        RangeRow::of([224, 0, 0, 0], [224, 255, 255, 255], SpecialRange::LinkLocalMulticast),
    ]
}

/// The resolver that has the address with the given octets: what the first
/// row of the table says that holds the address, and `Unknown` if none does.
pub open spec fn well_known(octets: Seq<u8>) -> WellKnown
    recommends
        octets.len() == 4,
{
    match first_match(well_known_rows(), octets) {
        Some(known) => known,
        None => WellKnown::Unknown,
    }
}

/// The special-use range of the address with the given octets: what the first
/// row of the table says that holds the address, if one does.
pub open spec fn special_range(octets: Seq<u8>) -> Option<SpecialRange>
    recommends
        octets.len() == 4,
{
    first_match(special_range_rows(), octets)
}

/// The class of the address with the given octets, which its first octet
/// decides: up to 127 class A, up to 191 class B, up to 223 class C, above
/// that class D or E.
pub open spec fn legacy_class(octets: Seq<u8>) -> LegacyClass
    recommends
        octets.len() == 4,
{
    if octets[0] <= 127 {
        LegacyClass::A
    } else if octets[0] <= 191 {
        LegacyClass::B
    } else if octets[0] <= 223 {
        LegacyClass::C
    } else {
        LegacyClass::DE
    }
}

/// The facts of the IPv4 address with the given octets.
pub open spec fn ipv4_facts(octets: Seq<u8>) -> Ipv4FactsView
    recommends
        octets.len() == 4,
{
    Ipv4FactsView {
        well_known: well_known(octets),
        private: ipv4_is_private(octets),
        link_local: ipv4_is_link_local(octets),
        broadcast: ipv4_is_broadcast(octets),
        documentation: ipv4_is_documentation(octets),
        ipv6_compatible: ipv4_compatible_segments(octets),
        ipv6_mapped: ipv4_mapped_segments(octets),
        special_range: special_range(octets),
        legacy_class: legacy_class(octets),
    }
}

/// The facts of an address: those that every address has, and those of its
/// family. Of an IPv6 address only the first segment is told.
pub open spec fn classification(addr: AddressView) -> ClassificationView
    recommends
        addr.well_formed(),
{
    ClassificationView {
        address: addr,
        loopback: addr.is_loopback(),
        unspecified: addr.is_unspecified(),
        multicast: addr.is_multicast(),
        canonical: addr.canonical(),
        ipv4: addr is V4,
        ipv6: addr is V6,
        family: match addr {
            AddressView::V4(octets) => FamilyFactsView::V4(ipv4_facts(octets)),
            AddressView::V6(segments) => FamilyFactsView::V6(
                Ipv6Facts { first_segment: segments[0] },
            ),
        },
    }
}

/// The special-use ranges do not overlap, so the order of the table does not
/// matter: an address has the name of a range exactly where it lies in that
/// range.
pub proof fn lemma_special_ranges(octets: Seq<u8>)
    requires
        octets.len() == 4,
    ensures
        rows_disjoint(special_range_rows()),
        special_range(octets) == Some(SpecialRange::PrivateClassA) <==> octets[0] == 10,
        special_range(octets) == Some(SpecialRange::PrivateClassB) <==> (octets[0] == 172 && 16
            <= octets[1] <= 31),
        special_range(octets) == Some(SpecialRange::PrivateClassC) <==> (octets[0] == 192
            && octets[1] == 168),
        special_range(octets) == Some(SpecialRange::CarrierGradeNat) <==> (octets[0] == 100 && 64
            <= octets[1] <= 127),
        special_range(octets) == Some(SpecialRange::LinkLocalUnicast) <==> (octets[0] == 169
            && octets[1] == 254),
        special_range(octets) == Some(SpecialRange::LinkLocalMulticast) <==> octets[0] == 224,
{
    let rows = special_range_rows();
    if exists|i: int| 0 <= i < 6 && rows[i].holds(octets) {
        let i = choose|i: int| 0 <= i < 6 && rows[i].holds(octets);
        lemma_first_match(rows, octets, i);
    }
}

/// The ranges of the well-known resolvers do not overlap, so the order of the
/// table does not matter: an address has the name of a resolver exactly where
/// it lies in a range of that resolver.
pub proof fn lemma_well_known(octets: Seq<u8>)
    requires
        octets.len() == 4,
    ensures
        rows_disjoint(well_known_rows()),
        well_known(octets) == WellKnown::GooglePublicDns <==> (octets == seq![8u8, 8u8, 8u8, 8u8]
            || octets == seq![8u8, 8u8, 4u8, 4u8]),
        well_known(octets) == WellKnown::CloudflareDns <==> (octets == seq![1u8, 1u8, 1u8, 1u8]
            || octets == seq![1u8, 0u8, 0u8, 1u8]),
        well_known(octets) == WellKnown::Level3Dns <==> (octets[0] == 4 && octets[1] == 2
            && octets[2] == 2 && 1 <= octets[3] <= 6),
        well_known(octets) == WellKnown::Quad9Dns <==> octets == seq![9u8, 9u8, 9u8, 9u8],
{
    let rows = well_known_rows();
    assert(rows[0].holds(octets) <==> octets =~= seq![8u8, 8u8, 8u8, 8u8]);
    assert(rows[1].holds(octets) <==> octets =~= seq![8u8, 8u8, 4u8, 4u8]);
    assert(rows[2].holds(octets) <==> octets =~= seq![1u8, 1u8, 1u8, 1u8]);
    assert(rows[3].holds(octets) <==> octets =~= seq![1u8, 0u8, 0u8, 1u8]);
    assert(rows[5].holds(octets) <==> octets =~= seq![9u8, 9u8, 9u8, 9u8]);
    if exists|i: int| 0 <= i < 6 && rows[i].holds(octets) {
        let i = choose|i: int| 0 <= i < 6 && rows[i].holds(octets);
        lemma_first_match(rows, octets, i);
    }
}

/// An address is private exactly where its special-use range is one of the
/// three private networks, and link-local exactly where it is the link-local
/// unicast range.
pub proof fn lemma_private_ranges(octets: Seq<u8>)
    requires
        octets.len() == 4,
    ensures
        ipv4_is_private(octets) <==> (special_range(octets) == Some(SpecialRange::PrivateClassA)
            || special_range(octets) == Some(SpecialRange::PrivateClassB) || special_range(octets)
            == Some(SpecialRange::PrivateClassC)),
        ipv4_is_link_local(octets) <==> special_range(octets) == Some(
            SpecialRange::LinkLocalUnicast,
        ),
{
    lemma_special_ranges(octets);
}

impl WellKnown {
    /// The name of the resolver's operator.
    pub open spec fn name_text(self) -> Seq<char> {
        match self {
            WellKnown::GooglePublicDns => "Google Public DNS"@,
            WellKnown::CloudflareDns => "Cloudflare DNS"@,
            WellKnown::Level3Dns => "Level 3 DNS"@,
            WellKnown::Quad9Dns => "Quad9 DNS"@,
            WellKnown::Unknown => "Unknown"@,
        }
    }

    /// The name of the resolver's operator.
    pub fn name(&self) -> (name: &'static str)
        ensures
            name@ == self.name_text(),
    {
        match self {
            WellKnown::GooglePublicDns => "Google Public DNS",
            WellKnown::CloudflareDns => "Cloudflare DNS",
            WellKnown::Level3Dns => "Level 3 DNS",
            WellKnown::Quad9Dns => "Quad9 DNS",
            WellKnown::Unknown => "Unknown",
        }
    }

    /// The table of the well-known resolvers.
    pub fn table() -> (rows: [RangeRow<WellKnown>; 6])
        ensures
            rows@ == well_known_rows(),
    {
        [
            RangeRow::new([8, 8, 8, 8], [8, 8, 8, 8], WellKnown::GooglePublicDns),
            RangeRow::new([8, 8, 4, 4], [8, 8, 4, 4], WellKnown::GooglePublicDns),
            RangeRow::new([1, 1, 1, 1], [1, 1, 1, 1], WellKnown::CloudflareDns),
            RangeRow::new([1, 0, 0, 1], [1, 0, 0, 1], WellKnown::CloudflareDns),
            RangeRow::new([4, 2, 2, 1], [4, 2, 2, 6], WellKnown::Level3Dns),
            RangeRow::new([9, 9, 9, 9], [9, 9, 9, 9], WellKnown::Quad9Dns),
        ]
    }

    /// Looks an address up in the table of well-known resolvers.
    pub fn of(addr: &Ipv4Addr) -> (known: WellKnown)
        ensures
            known == well_known(addr@),
    {
        let rows = WellKnown::table();
        match lookup(rows.as_slice(), addr) {
            Some(known) => known,
            None => WellKnown::Unknown,
        }
    }
}

impl SpecialRange {
    /// The message that describes the range.
    pub open spec fn message_text(self) -> Seq<char> {
        match self {
            SpecialRange::PrivateClassA => "Private network, class A, 24-bit block, 8-bit mask"@,
            SpecialRange::PrivateClassB => "Private network, class B, 20-bit block, 12-bit mask"@,
            SpecialRange::PrivateClassC => "Private network, class C, 16-bit block, 16-bit mask"@,
            SpecialRange::CarrierGradeNat => "Carrier-grade NAT range, 22-bit block, 10-bit mask"@,
            SpecialRange::LinkLocalUnicast => "Link-local unicast, 16-bit block, 16-bit mask"@,
            SpecialRange::LinkLocalMulticast => "Link-local multicast, 24-bit block, 8-bit mask"@,
        }
    }

    /// The message that describes the range.
    pub fn message(&self) -> (message: &'static str)
        ensures
            message@ == self.message_text(),
    {
        match self {
            SpecialRange::PrivateClassA => "Private network, class A, 24-bit block, 8-bit mask",
            SpecialRange::PrivateClassB => "Private network, class B, 20-bit block, 12-bit mask",
            SpecialRange::PrivateClassC => "Private network, class C, 16-bit block, 16-bit mask",
            SpecialRange::CarrierGradeNat => "Carrier-grade NAT range, 22-bit block, 10-bit mask",
            SpecialRange::LinkLocalUnicast => "Link-local unicast, 16-bit block, 16-bit mask",
            SpecialRange::LinkLocalMulticast => "Link-local multicast, 24-bit block, 8-bit mask",
        }
    }

    /// The table of the special-use ranges.
    pub fn table() -> (rows: [RangeRow<SpecialRange>; 6])
        ensures
            rows@ == special_range_rows(),
    {
        [
            RangeRow::new([10, 0, 0, 0], [10, 255, 255, 255], SpecialRange::PrivateClassA),
            RangeRow::new([172, 16, 0, 0], [172, 31, 255, 255], SpecialRange::PrivateClassB),
            RangeRow::new([192, 168, 0, 0], [192, 168, 255, 255], SpecialRange::PrivateClassC),
            RangeRow::new([100, 64, 0, 0], [100, 127, 255, 255], SpecialRange::CarrierGradeNat),
            RangeRow::new([169, 254, 0, 0], [169, 254, 255, 255], SpecialRange::LinkLocalUnicast),
            RangeRow::new([224, 0, 0, 0], [224, 255, 255, 255], SpecialRange::LinkLocalMulticast),
        ]
    }

    /// Finds the first special-use range that holds an address.
    pub fn of(addr: &Ipv4Addr) -> (range: Option<SpecialRange>)
        ensures
            range == special_range(addr@),
    {
        let rows = SpecialRange::table();
        lookup(rows.as_slice(), addr)
    }
}

impl LegacyClass {
    /// The label of the class.
    pub open spec fn label_text(self) -> Seq<char> {
        match self {
            LegacyClass::A => "CIDR Class A"@,
            LegacyClass::B => "CIDR Class B"@,
            LegacyClass::C => "CIDR Class C"@,
            LegacyClass::DE => "CIDR Class D/E"@,
        }
    }

    /// The label of the class.
    pub fn label(&self) -> (label: &'static str)
        ensures
            label@ == self.label_text(),
    {
        match self {
            LegacyClass::A => "CIDR Class A",
            LegacyClass::B => "CIDR Class B",
            LegacyClass::C => "CIDR Class C",
            LegacyClass::DE => "CIDR Class D/E",
        }
    }

    /// The class of an address.
    pub fn of(addr: &Ipv4Addr) -> (class: LegacyClass)
        ensures
            class == legacy_class(addr@),
    {
        let first = addr.octets[0];
        if first <= 127 {
            LegacyClass::A
        } else if first <= 191 {
            LegacyClass::B
        } else if first <= 223 {
            LegacyClass::C
        } else {
            LegacyClass::DE
        }
    }
}

/// Names the well-known resolver that has the address with the given octets.
pub fn check_well_known_ip_addrs(octets: [u8; 4]) -> (name: String)
    ensures
        name@ == well_known(octets@).name_text(),
{
    let addr = Ipv4Addr { octets };
    String::from_str(WellKnown::of(&addr).name())
}

/// Gathers the facts of an address.
pub fn interpret_ip(ip: Address) -> (result: ClassificationResult)
    ensures
        result@ == classification(ip@),
{
    let family = match ip {
        Address::V4(addr) => FamilyFacts::V4(
            Ipv4Facts {
                well_known: WellKnown::of(&addr),
                private: addr.is_private(),
                link_local: addr.is_link_local(),
                broadcast: addr.is_broadcast(),
                documentation: addr.is_documentation(),
                ipv6_compatible: addr.to_ipv6_compatible(),
                ipv6_mapped: addr.to_ipv6_mapped(),
                special_range: SpecialRange::of(&addr),
                legacy_class: LegacyClass::of(&addr),
            },
        ),
        Address::V6(addr) => FamilyFacts::V6(Ipv6Facts { first_segment: addr.segments[0] }),
    };
    ClassificationResult {
        address: ip,
        loopback: ip.is_loopback(),
        unspecified: ip.is_unspecified(),
        multicast: ip.is_multicast(),
        canonical: ip.to_canonical(),
        ipv4: ip.is_ipv4(),
        ipv6: ip.is_ipv6(),
        family,
    }
}

} // verus!
