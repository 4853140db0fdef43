//! The dotted-decimal notation of IPv4 addresses.

use crate::address::Ipv4Addr;
use crate::digits::{
    append_decimal, bounded_decimal, decimal_text, lemma_decimal_canonical, lemma_decimal_text,
    parse_decimal,
};
use crate::text::{
    chars_of, join, lemma_join_split, lemma_join_without, lemma_split_join, split, split_slice,
};
use vstd::prelude::*;
use vstd::string::StringExecFns;

verus! {

/// The dotted-decimal notation of four octets: their decimal notations, with a
/// dot between each two.
pub open spec fn ipv4_text(octets: Seq<u8>) -> Seq<char> {
    join(octets.map_values(|o: u8| decimal_text(o as nat)), '.')
}

/// The octet that `s` denotes: decimal digits without a leading zero that
/// denote at most 255. `None` for every other text.
pub open spec fn octet_value(s: Seq<char>) -> Option<u8> {
    if s.len() == 1 || (s.len() > 1 && s[0] != '0') {
        match bounded_decimal(s, 255) {
            Some(v) => Some(v as u8),
            None => None,
        }
    } else {
        None
    }
}

/// The octets that `s` denotes in dotted-decimal notation: exactly four
/// octets separated by dots. `None` for every other text.
pub open spec fn ipv4_value(s: Seq<char>) -> Option<Seq<u8>> {
    let pieces = split(s, '.');
    if pieces.len() == 4 && forall|i: int|
        0 <= i < pieces.len() ==> octet_value(#[trigger] pieces[i]) is Some {
        Some(pieces.map_values(|p: Seq<char>| octet_value(p).unwrap()))
    } else {
        None
    }
}

/// The decimal notation of an octet denotes that octet and holds no dot.
pub proof fn lemma_octet_text(o: u8)
    ensures
        octet_value(decimal_text(o as nat)) == Some(o),
        !decimal_text(o as nat).contains('.'),
        !decimal_text(o as nat).contains(':'),
        decimal_text(o as nat).len() >= 1,
{
    lemma_decimal_text(o as nat);
}

/// A text that denotes an octet is the decimal notation of that octet.
pub proof fn lemma_octet_canonical(s: Seq<char>)
    requires
        octet_value(s) is Some,
    ensures
        decimal_text(octet_value(s).unwrap() as nat) == s,
{
    lemma_decimal_canonical(s);
}

/// The dotted-decimal notation of four octets denotes these octets.
pub proof fn lemma_ipv4_text_value(octets: Seq<u8>)
    requires
        octets.len() == 4,
    ensures
        ipv4_value(ipv4_text(octets)) == Some(octets),
{
    let parts = octets.map_values(|o: u8| decimal_text(o as nat));
    assert forall|i: int| 0 <= i < parts.len() implies !(#[trigger] parts[i]).contains('.') by {
        lemma_octet_text(octets[i]);
    }
    lemma_split_join(parts, '.');
    let pieces = split(ipv4_text(octets), '.');
    assert forall|i: int| 0 <= i < pieces.len() implies octet_value(#[trigger] pieces[i]) == Some(
        octets[i],
    ) by {
        lemma_octet_text(octets[i]);
    }
}

/// A text that denotes four octets is the dotted-decimal notation of these
/// octets.
pub proof fn lemma_ipv4_value_text(s: Seq<char>)
    requires
        ipv4_value(s) is Some,
    ensures
        ipv4_value(s).unwrap().len() == 4,
        ipv4_text(ipv4_value(s).unwrap()) == s,
{
    let pieces = split(s, '.');
    let octets = ipv4_value(s).unwrap();
    lemma_join_split(s, '.');
    let parts = octets.map_values(|o: u8| decimal_text(o as nat));
    assert forall|i: int| 0 <= i < pieces.len() implies parts[i] == #[trigger] pieces[i] by {
        lemma_octet_canonical(pieces[i]);
    }
    assert(parts =~= pieces);
}

/// The dotted-decimal notation of an address holds no colon.
pub proof fn lemma_ipv4_text_has_no_colon(octets: Seq<u8>)
    requires
        octets.len() == 4,
    ensures
        !ipv4_text(octets).contains(':'),
{
    let parts = octets.map_values(|o: u8| decimal_text(o as nat));
    assert forall|i: int| 0 <= i < parts.len() implies !(#[trigger] parts[i]).contains(':') by {
        lemma_octet_text(octets[i]);
    }
    lemma_join_without(parts, '.', ':');
}

/// A text that holds a colon denotes no IPv4 address.
pub proof fn lemma_colon_is_no_ipv4(s: Seq<char>)
    requires
        s.contains(':'),
    ensures
        ipv4_value(s) is None,
{
    if ipv4_value(s) is Some {
        lemma_ipv4_value_text(s);
        lemma_ipv4_text_has_no_colon(ipv4_value(s).unwrap());
    }
}

/// No text is the dotted-decimal notation of two different addresses.
pub proof fn lemma_ipv4_text_injective(a: Seq<u8>, b: Seq<u8>)
    requires
        a.len() == 4,
        b.len() == 4,
        ipv4_text(a) == ipv4_text(b),
    ensures
        a == b,
{
    lemma_ipv4_text_value(a);
    lemma_ipv4_text_value(b);
}

/// Reads one octet of a dotted-decimal notation.
pub fn parse_octet(s: &[char]) -> (parsed: Option<u8>)
    ensures
        parsed == octet_value(s@),
{
    if s.len() > 1 && s[0] == '0' {
        return None;
    }
    match parse_decimal(s, 255) {
        Some(v) => Some(v as u8),
        None => None,
    }
}

impl Ipv4Addr {
    /// Reads an address in dotted-decimal notation. The result is the one
    /// address whose notation `s` is, if there is such an address.
    pub fn from_chars(s: &[char]) -> (parsed: Option<Ipv4Addr>)
        ensures
            parsed is Some <==> ipv4_value(s@) is Some,
            parsed matches Some(addr) ==> ipv4_value(s@) == Some(addr@) && ipv4_text(addr@) == s@,
            parsed is None ==> forall|octets: Seq<u8>|
                octets.len() == 4 ==> ipv4_text(octets) != s@,
    {
        let pieces = split_slice(s, '.');
        proof {
            if ipv4_value(s@) is Some {
                lemma_ipv4_value_text(s@);
            }
            assert forall|octets: Seq<u8>|
                octets.len() == 4 && ipv4_text(octets) == s@ implies ipv4_value(s@) is Some by {
                lemma_ipv4_text_value(octets);
            }
        }
        if pieces.len() != 4 {
            return None;
        }
        proof {
            let parts = split(s@, '.');
            assert(parts[0] == pieces[0]@ && parts[1] == pieces[1]@ && parts[2] == pieces[2]@
                && parts[3] == pieces[3]@);
        }
        let a = match parse_octet(pieces[0]) {
            Some(o) => o,
            None => {
                return None;
            },
        };
        let b = match parse_octet(pieces[1]) {
            Some(o) => o,
            None => {
                return None;
            },
        };
        let c = match parse_octet(pieces[2]) {
            Some(o) => o,
            None => {
                return None;
            },
        };
        let d = match parse_octet(pieces[3]) {
            Some(o) => o,
            None => {
                return None;
            },
        };
        let addr = Ipv4Addr::new(a, b, c, d);
        proof {
            assert(ipv4_value(s@).unwrap() =~= addr@);
        }
        Some(addr)
    }

    /// Reads an address in dotted-decimal notation.
    pub fn from_text(s: &str) -> (parsed: Option<Ipv4Addr>)
        ensures
            parsed is Some <==> ipv4_value(s@) is Some,
            parsed matches Some(addr) ==> ipv4_value(s@) == Some(addr@) && ipv4_text(addr@) == s@,
            parsed is None ==> forall|octets: Seq<u8>|
                octets.len() == 4 ==> ipv4_text(octets) != s@,
    {
        let chars = chars_of(s);
        Ipv4Addr::from_chars(chars.as_slice())
    }

    /// Appends the dotted-decimal notation of the address to `out`.
    pub fn append_text(&self, out: &mut String)
        ensures
            final(out)@ == old(out)@ + ipv4_text(self@),
    {
        append_decimal(out, self.octets[0] as u32);
        out.append(".");
        append_decimal(out, self.octets[1] as u32);
        out.append(".");
        append_decimal(out, self.octets[2] as u32);
        out.append(".");
        append_decimal(out, self.octets[3] as u32);
        proof {
            reveal_strlit(".");
            reveal_with_fuel(join, 5);
        }
    }

    /// The dotted-decimal notation of the address.
    pub fn to_text(&self) -> (text: String)
        ensures
            text@ == ipv4_text(self@),
    {
        let mut text = String::new();
        self.append_text(&mut text);
        text
    }
}

} // verus!
