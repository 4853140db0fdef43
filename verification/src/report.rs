//! The report on an input: the lines of text that tell what was decoded.

use crate::address::Address;
use crate::classify::{
    classification, interpret_ip, ClassificationResult, ClassificationView, FamilyFacts,
    FamilyFactsView,
};
use crate::colon_hex::ipv6_text;
use crate::digits::{append_decimal, append_hex, decimal_text, hex_text};
use crate::error::InputError;
use crate::input::{input_value, parse_input, AddressSpec, AddressSpecView};
use crate::netmask::{convert_cidr_pfx_to_netmask, netmask_text, netmask_value, Netmask};
use crate::notation::address_text;
use vstd::prelude::*;
use vstd::string::StringExecFns;

verus! {

/// The texts of a sequence of strings.
pub open spec fn texts(lines: Seq<String>) -> Seq<Seq<char>> {
    Seq::new(lines.len(), |i: int| lines[i]@)
}

/// The word for a truth value.
pub open spec fn bool_text(b: bool) -> Seq<char> {
    if b {
        "true"@
    } else {
        "false"@
    }
}

/// The lines that tell the facts of an address of one family.
pub open spec fn family_report(family: FamilyFactsView) -> Seq<Seq<char>> {
    match family {
        FamilyFactsView::V4(facts) => seq![
            "Well-known:       "@ + facts.well_known.name_text(),
            "Private:          "@ + bool_text(facts.private),
            "Link-local:       "@ + bool_text(facts.link_local),
            "Broadcast:        "@ + bool_text(facts.broadcast),
            "Documentation:    "@ + bool_text(facts.documentation),
            "IPv6 compatible:  "@ + ipv6_text(facts.ipv6_compatible),
            "IPv6 mapped:      "@ + ipv6_text(facts.ipv6_mapped),
        ] + match facts.special_range {
            Some(range) => seq![range.message_text()],
            None => Seq::<Seq<char>>::empty(),
        } + seq![facts.legacy_class.label_text()],
        FamilyFactsView::V6(facts) => seq![decimal_text(facts.first_segment as nat)],
    }
}

/// The lines that tell the facts of an address: first those that every
/// address has, then those of its family.
pub open spec fn facts_report(facts: ClassificationView) -> Seq<Seq<char>> {
    seq![
        "Loopback:         "@ + bool_text(facts.loopback),
        "Unspecified:      "@ + bool_text(facts.unspecified),
        "Multicast:        "@ + bool_text(facts.multicast),
        "Canonicalized:    "@ + address_text(facts.canonical),
        "IPv4:             "@ + bool_text(facts.ipv4),
        "IPv6:             "@ + bool_text(facts.ipv6),
    ] + family_report(facts.family)
}

/// The lines that tell the netmask of a prefix length: its value in decimal
/// and in hexadecimal with capital letters, and its dotted-decimal notation.
/// A prefix length above 32 has no 32-bit netmask and gets no lines.
pub open spec fn netmask_report(prefix: u8) -> Seq<Seq<char>> {
    if prefix <= 32 {
        seq![
            "Net mask calc:   "@ + decimal_text(netmask_value(prefix) as nat),
            "Net mask hex:    "@ + hex_text(netmask_value(prefix) as nat, true),
            "Net mask IP:     "@ + netmask_text(prefix),
        ]
    } else {
        Seq::<Seq<char>>::empty()
    }
}

/// The lines that tell what an input was decoded to.
pub open spec fn decoded_report(input: Seq<char>, spec: AddressSpecView) -> Seq<Seq<char>> {
    match spec {
        AddressSpecView::BarePrefix { prefix } => seq![
            "CIDR notation:   "@ + input,
            "Net mask IP:     "@ + netmask_text(prefix),
        ],
        AddressSpecView::CidrSpec { address, prefix } => seq![
            "CIDR notation:   "@ + input,
            "IP part:         "@ + address_text(address),
            "Net mask part:   "@ + decimal_text(prefix as nat),
        ] + netmask_report(prefix) + facts_report(classification(address)),
        AddressSpecView::PlainAddress { address } => facts_report(classification(address)),
    }
}

/// The whole report on an input: a title, the input, and what it was decoded
/// to.
pub open spec fn report(input: Seq<char>, spec: AddressSpecView) -> Seq<Seq<char>> {
    seq![":: IP Address decoder ::"@, "IP: "@ + input] + decoded_report(input, spec)
}

/// The word for a truth value.
fn bool_str(b: bool) -> (word: &'static str)
    ensures
        word@ == bool_text(b),
{
    if b {
        "true"
    } else {
        "false"
    }
}

/// Adds a line to the end of a report.
fn push_line(lines: &mut Vec<String>, line: String)
    ensures
        texts(final(lines)@) == texts(old(lines)@).push(line@),
{
    lines.push(line);
}

/// Adds a line that is made of a label and a text.
fn push_text(lines: &mut Vec<String>, label: &str, value: &str)
    ensures
        texts(final(lines)@) == texts(old(lines)@).push(label@ + value@),
{
    let mut line = String::from_str(label);
    line.append(value);
    push_line(lines, line);
}

/// Adds a line that is made of a label and the notation of an address.
fn push_address(lines: &mut Vec<String>, label: &str, address: &Address)
    ensures
        texts(final(lines)@) == texts(old(lines)@).push(label@ + address_text(address@)),
{
    let mut line = String::from_str(label);
    address.append_text(&mut line);
    push_line(lines, line);
}

/// Adds a line that is made of a label and a number in decimal notation.
fn push_decimal(lines: &mut Vec<String>, label: &str, value: u32)
    ensures
        texts(final(lines)@) == texts(old(lines)@).push(label@ + decimal_text(value as nat)),
{
    let mut line = String::from_str(label);
    append_decimal(&mut line, value);
    push_line(lines, line);
}

/// Adds the lines that tell the facts of an address of one family.
fn push_family(lines: &mut Vec<String>, family: &FamilyFacts)
    ensures
        texts(final(lines)@) == texts(old(lines)@) + family_report(family@),
{
    match family {
        FamilyFacts::V4(facts) => {
            push_text(lines, "Well-known:       ", facts.well_known.name());
            push_text(lines, "Private:          ", bool_str(facts.private));
            push_text(lines, "Link-local:       ", bool_str(facts.link_local));
            push_text(lines, "Broadcast:        ", bool_str(facts.broadcast));
            push_text(lines, "Documentation:    ", bool_str(facts.documentation));
            push_address(lines, "IPv6 compatible:  ", &Address::V6(facts.ipv6_compatible));
            push_address(lines, "IPv6 mapped:      ", &Address::V6(facts.ipv6_mapped));
            match facts.special_range {
                Some(range) => {
                    push_line(lines, String::from_str(range.message()));
                },
                None => {},
            }
            push_line(lines, String::from_str(facts.legacy_class.label()));
        },
        FamilyFacts::V6(facts) => {
            let mut line = String::new();
            append_decimal(&mut line, facts.first_segment as u32);
            push_line(lines, line);
        },
    }
}

/// Adds the lines that tell the facts of an address.
fn push_facts(lines: &mut Vec<String>, facts: &ClassificationResult)
    ensures
        texts(final(lines)@) == texts(old(lines)@) + facts_report(facts@),
{
    push_text(lines, "Loopback:         ", bool_str(facts.loopback));
    push_text(lines, "Unspecified:      ", bool_str(facts.unspecified));
    push_text(lines, "Multicast:        ", bool_str(facts.multicast));
    push_address(lines, "Canonicalized:    ", &facts.canonical);
    push_text(lines, "IPv4:             ", bool_str(facts.ipv4));
    push_text(lines, "IPv6:             ", bool_str(facts.ipv6));
    push_family(lines, &facts.family);
}

/// Adds the lines that tell the netmask of a prefix length.
fn push_netmask(lines: &mut Vec<String>, prefix: u8)
    ensures
        texts(final(lines)@) == texts(old(lines)@) + netmask_report(prefix),
{
    match Netmask::new(prefix) {
        Ok(mask) => {
            push_decimal(lines, "Net mask calc:   ", mask.value());
            let mut line = String::from_str("Net mask hex:    ");
            append_hex(&mut line, mask.value(), true);
            push_line(lines, line);
            push_text(lines, "Net mask IP:     ", mask.to_text().as_str());
        },
        Err(_) => {},
    }
}

impl ClassificationResult {
    /// The lines that tell these facts.
    pub fn lines(&self) -> (lines: Vec<String>)
        ensures
            texts(lines@) == facts_report(self@),
    {
        let mut lines: Vec<String> = Vec::new();
        push_facts(&mut lines, self);
        lines
    }
}

/// The report on an input that was read as `spec`.
pub fn report_lines(input: &str, spec: &AddressSpec) -> (lines: Vec<String>)
    requires
        spec@.well_formed(),
    ensures
        texts(lines@) == report(input@, spec@),
{
    let mut lines: Vec<String> = Vec::new();
    push_line(&mut lines, String::from_str(":: IP Address decoder ::"));
    push_text(&mut lines, "IP: ", input);
    match spec {
        AddressSpec::BarePrefix { prefix } => {
            push_text(&mut lines, "CIDR notation:   ", input);
            let dotted = convert_cidr_pfx_to_netmask(*prefix);
            push_text(&mut lines, "Net mask IP:     ", dotted.as_str());
        },
        AddressSpec::CidrSpec { address, prefix } => {
            push_text(&mut lines, "CIDR notation:   ", input);
            push_address(&mut lines, "IP part:         ", address);
            push_decimal(&mut lines, "Net mask part:   ", *prefix as u32);
            push_netmask(&mut lines, *prefix);
            let facts = interpret_ip(*address);
            push_facts(&mut lines, &facts);
        },
        AddressSpec::PlainAddress { address } => {
            let facts = interpret_ip(*address);
            push_facts(&mut lines, &facts);
        },
    }
    lines
}

/// Decodes an input. The result is the report on what the input denotes, or
/// the reason why it denotes nothing.
pub fn decode(input: &str) -> (decoded: Result<Vec<String>, InputError>)
    ensures
        match input_value(input@) {
            Ok(spec) => decoded matches Ok(lines) && texts(lines@) == report(input@, spec),
            Err(e) => decoded == Err::<Vec<String>, InputError>(e),
        },
{
    match parse_input(input) {
        Ok(spec) => Ok(report_lines(input, &spec)),
        Err(e) => Err(e),
    }
}

} // verus!
