//! Reading the input: a bare prefix length, a CIDR specification or a plain
//! address.

use crate::address::{Address, AddressView};
use crate::digits::{bounded_decimal, parse_decimal};
use crate::error::InputError;
use crate::notation::address_value;
use crate::text::{chars_of, find_first};
use vstd::prelude::*;
use vstd::slice::slice_subrange;

verus! {

/// What an input asks to decode.
#[derive(Clone, Copy, Debug, PartialEq, Eq)]
pub enum AddressSpec {
    /// A prefix length alone, as in `/24`.
    BarePrefix { prefix: u8 },
    /// An address with a prefix length, as in `10.0.0.0/8`.
    CidrSpec { address: Address, prefix: u8 },
    /// An address alone.
    PlainAddress { address: Address },
}

/// The mathematical value of an `AddressSpec`.
pub enum AddressSpecView {
    BarePrefix { prefix: u8 },
    CidrSpec { address: AddressView, prefix: u8 },
    PlainAddress { address: AddressView },
}

impl View for AddressSpec {
    type V = AddressSpecView;

    open spec fn view(&self) -> AddressSpecView {
        match self {
            AddressSpec::BarePrefix { prefix } => AddressSpecView::BarePrefix { prefix: *prefix },
            AddressSpec::CidrSpec { address, prefix } => AddressSpecView::CidrSpec {
                address: address@,
                prefix: *prefix,
            },
            AddressSpec::PlainAddress { address } => AddressSpecView::PlainAddress {
                address: address@,
            },
        }
    }
}

/// The longest prefix of an address: 32 bits for IPv4, 128 bits for IPv6.
pub open spec fn max_prefix(addr: AddressView) -> u8 {
    match addr {
        AddressView::V4(_) => 32,
        AddressView::V6(_) => 128,
    }
}

impl AddressSpecView {
    /// Whether every address has the size of its family and every prefix
    /// length is in range: at most 32 alone or with an IPv4 address, at most
    /// 128 with an IPv6 address.
    pub open spec fn well_formed(self) -> bool {
        match self {
            AddressSpecView::BarePrefix { prefix } => prefix <= 32,
            AddressSpecView::CidrSpec { address, prefix } => address.well_formed() && prefix
                <= max_prefix(address),
            AddressSpecView::PlainAddress { address } => address.well_formed(),
        }
    }
}

/// The number that `s` denotes as a prefix length: decimal digits, with or
/// without a plus sign before them, that denote at most 255. `None` for every
/// other text.
pub open spec fn prefix_value(s: Seq<char>) -> Option<u8> {
    let digits = if s.len() > 0 && s[0] == '+' {
        s.skip(1)
    } else {
        s
    };
    match bounded_decimal(digits, 255) {
        Some(v) => Some(v as u8),
        None => None,
    }
}

/// Whether `s` is a bare prefix length: whether it starts with a slash.
pub open spec fn is_bare_netmask_text(s: Seq<char>) -> bool {
    s.len() > 0 && s[0] == '/'
}

/// Whether `s` is a CIDR specification: whether it holds a slash.
pub open spec fn is_cidr_spec_text(s: Seq<char>) -> bool {
    s.contains('/')
}

/// The prefix length that the bare netmask `s` denotes: `s` is a slash and a
/// prefix length of at most 32.
pub open spec fn bare_netmask_value(s: Seq<char>) -> Result<u8, InputError> {
    if !is_bare_netmask_text(s) {
        Err(InputError::MalformedPrefix)
    } else {
        match prefix_value(s.skip(1)) {
            None => Err(InputError::MalformedPrefix),
            Some(prefix) => if prefix <= 32 {
                Ok(prefix)
            } else {
                Err(InputError::PrefixOutOfRange)
            },
        }
    }
}

/// The address and the prefix length that the CIDR specification `s`
/// denotes: `s` is an address, a slash and a prefix length that the family of
/// the address allows. The address ends at the first slash. A malformed
/// address is reported before a malformed prefix length.
pub open spec fn cidr_value(s: Seq<char>) -> Result<(AddressView, u8), InputError> {
    let slash = s.index_of_first('/');
    let address_part = match slash {
        Some(k) => s.take(k),
        None => s,
    };
    match address_value(address_part) {
        None => Err(InputError::MalformedAddress),
        Some(address) => match slash {
            None => Err(InputError::MalformedPrefix),
            Some(k) => match prefix_value(s.skip(k + 1)) {
                None => Err(InputError::MalformedPrefix),
                Some(prefix) => if prefix <= max_prefix(address) {
                    Ok((address, prefix))
                } else {
                    Err(InputError::PrefixOutOfRange)
                },
            },
        },
    }
}

/// What the input `s` asks to decode. An input that starts with a slash is a
/// bare prefix length; any other input that holds a slash is a CIDR
/// specification; an input without a slash is a plain address.
pub open spec fn input_value(s: Seq<char>) -> Result<AddressSpecView, InputError> {
    if is_bare_netmask_text(s) {
        match bare_netmask_value(s) {
            Ok(prefix) => Ok(AddressSpecView::BarePrefix { prefix }),
            Err(e) => Err(e),
        }
    } else if is_cidr_spec_text(s) {
        match cidr_value(s) {
            Ok((address, prefix)) => Ok(AddressSpecView::CidrSpec { address, prefix }),
            Err(e) => Err(e),
        }
    } else {
        match address_value(s) {
            Some(address) => Ok(AddressSpecView::PlainAddress { address }),
            None => Err(InputError::MalformedAddress),
        }
    }
}

/// Every input that is accepted is well formed: no prefix length is out of
/// range.
pub proof fn lemma_input_value_well_formed(s: Seq<char>)
    ensures
        input_value(s) matches Ok(spec) ==> spec.well_formed(),
{
}

/// Reads a prefix length.
pub fn parse_prefix(s: &[char]) -> (parsed: Option<u8>)
    ensures
        parsed == prefix_value(s@),
{
    let digits = if s.len() > 0 && s[0] == '+' {
        slice_subrange(s, 1, s.len())
    } else {
        s
    };
    match parse_decimal(digits, 255) {
        Some(v) => Some(v as u8),
        None => None,
    }
}

/// Reads a bare prefix length from the characters of an input.
pub fn bare_netmask_of(s: &[char]) -> (parsed: Result<u8, InputError>)
    ensures
        parsed == bare_netmask_value(s@),
{
    if s.len() == 0 || s[0] != '/' {
        return Err(InputError::MalformedPrefix);
    }
    match parse_prefix(slice_subrange(s, 1, s.len())) {
        None => Err(InputError::MalformedPrefix),
        Some(prefix) => if prefix <= 32 {
            Ok(prefix)
        } else {
            Err(InputError::PrefixOutOfRange)
        },
    }
}

/// Reads a CIDR specification from the characters of an input.
pub fn cidr_of(s: &[char]) -> (parsed: Result<(Address, u8), InputError>)
    ensures
        match parsed {
            Ok((address, prefix)) => cidr_value(s@) == Ok::<(AddressView, u8), InputError>(
                (address@, prefix),
            ),
            Err(e) => cidr_value(s@) == Err::<(AddressView, u8), InputError>(e),
        },
{
    let slash = find_first(s, '/');
    let address_part = match slash {
        Some(k) => slice_subrange(s, 0, k),
        None => s,
    };
    let address = match Address::from_chars(address_part) {
        Some(address) => address,
        None => {
            return Err(InputError::MalformedAddress);
        },
    };
    let k = match slash {
        Some(k) => k,
        None => {
            return Err(InputError::MalformedPrefix);
        },
    };
    let prefix = match parse_prefix(slice_subrange(s, k + 1, s.len())) {
        Some(prefix) => prefix,
        None => {
            return Err(InputError::MalformedPrefix);
        },
    };
    let limit: u8 = match address {
        Address::V4(_) => 32,
        Address::V6(_) => 128,
    };
    if prefix <= limit {
        Ok((address, prefix))
    } else {
        Err(InputError::PrefixOutOfRange)
    }
}

/// Decides what the characters of an input ask to decode.
pub fn input_of(s: &[char]) -> (parsed: Result<AddressSpec, InputError>)
    ensures
        match parsed {
            Ok(spec) => input_value(s@) == Ok::<AddressSpecView, InputError>(spec@),
            Err(e) => input_value(s@) == Err::<AddressSpecView, InputError>(e),
        },
{
    if s.len() > 0 && s[0] == '/' {
        match bare_netmask_of(s) {
            Ok(prefix) => Ok(AddressSpec::BarePrefix { prefix }),
            Err(e) => Err(e),
        }
    } else {
        let slash = find_first(s, '/');
        proof {
            s@.index_of_first_ensures('/');
        }
        if slash.is_some() {
            match cidr_of(s) {
                Ok((address, prefix)) => Ok(AddressSpec::CidrSpec { address, prefix }),
                Err(e) => Err(e),
            }
        } else {
            match Address::from_chars(s) {
                Some(address) => Ok(AddressSpec::PlainAddress { address }),
                None => Err(InputError::MalformedAddress),
            }
        }
    }
}

/// Returns true if the string is a bare prefix length, such as `/24`.
pub fn is_bare_netmask(s: &str) -> (bare: bool)
    ensures
        bare == is_bare_netmask_text(s@),
{
    let mut chars = s.chars();
    match chars.next() {
        Some(first) => first == '/',
        None => false,
    }
}

/// Reads a bare prefix length: `/24` gives 24.
pub fn parse_bare_netmask(s: &str) -> (parsed: Result<u8, InputError>)
    ensures
        parsed == bare_netmask_value(s@),
{
    let chars = chars_of(s);
    bare_netmask_of(chars.as_slice())
}

/// Returns true if the string is a CIDR specification, such as `10.0.0.0/8`.
pub fn is_cidr_spec(s: &str) -> (cidr: bool)
    ensures
        cidr == is_cidr_spec_text(s@),
{
    let chars = chars_of(s);
    proof {
        s@.index_of_first_ensures('/');
    }
    find_first(chars.as_slice(), '/').is_some()
}

/// Reads a CIDR specification: `10.0.0.0/8` gives the address 10.0.0.0 and
/// the prefix length 8.
pub fn parse_cidr_spec(s: &str) -> (parsed: Result<(Address, u8), InputError>)
    ensures
        match parsed {
            Ok((address, prefix)) => cidr_value(s@) == Ok::<(AddressView, u8), InputError>(
                (address@, prefix),
            ),
            Err(e) => cidr_value(s@) == Err::<(AddressView, u8), InputError>(e),
        },
{
    let chars = chars_of(s);
    cidr_of(chars.as_slice())
}

/// Decides what an input asks to decode, and reads it.
pub fn parse_input(s: &str) -> (parsed: Result<AddressSpec, InputError>)
    ensures
        match parsed {
            Ok(spec) => input_value(s@) == Ok::<AddressSpecView, InputError>(spec@),
            Err(e) => input_value(s@) == Err::<AddressSpecView, InputError>(e),
        },
{
    let chars = chars_of(s);
    input_of(chars.as_slice())
}

} // verus!
