//! Tables of IPv4 address ranges with first-match-wins lookup.

use crate::address::{octets_value, Ipv4Addr};
use vstd::prelude::*;

verus! {

/// A row of a table: the addresses from `first` to `last`, both included, and
/// what the table says of them.
#[derive(Debug)]
pub struct RangeRow<L> {
    pub first: Ipv4Addr,
    pub last: Ipv4Addr,
    pub label: L,
}

impl<L> RangeRow<L> {
    /// The row for the addresses from `first` to `last`.
    pub open spec fn of(first: [u8; 4], last: [u8; 4], label: L) -> RangeRow<L> {
        RangeRow { first: Ipv4Addr { octets: first }, last: Ipv4Addr { octets: last }, label }
    }

    /// Makes the row for the addresses from `first` to `last`.
    pub fn new(first: [u8; 4], last: [u8; 4], label: L) -> (row: RangeRow<L>)
        ensures
            row == Self::of(first, last, label),
    {
        RangeRow { first: Ipv4Addr { octets: first }, last: Ipv4Addr { octets: last }, label }
    }

    /// Whether the row holds the address with the given octets: whether the
    /// 32-bit value of the address lies between those of `first` and `last`.
    pub open spec fn holds(self, octets: Seq<u8>) -> bool {
        octets_value(self.first@) <= octets_value(octets) <= octets_value(self.last@)
    }

    /// Whether the row holds an address.
    pub fn matches(&self, addr: &Ipv4Addr) -> (b: bool)
        ensures
            b == self.holds(addr@),
    {
        let value = addr.to_u32();
        self.first.to_u32() <= value && value <= self.last.to_u32()
    }
}

/// Whether row `i` is the first row of the table that holds the address.
pub open spec fn is_first_match<L>(rows: Seq<RangeRow<L>>, octets: Seq<u8>, i: int) -> bool {
    &&& 0 <= i < rows.len()
    &&& rows[i].holds(octets)
    &&& forall|j: int| 0 <= j < i ==> !(#[trigger] rows[j]).holds(octets)
}

/// What the table says of an address: the label of the first row that holds
/// it, if a row does.
pub open spec fn first_match<L>(rows: Seq<RangeRow<L>>, octets: Seq<u8>) -> Option<L> {
    if exists|i: int| is_first_match(rows, octets, i) {
        Some(rows[choose|i: int| is_first_match(rows, octets, i)].label)
    } else {
        None
    }
}

/// The first row that holds an address decides what the table says of it.
pub proof fn lemma_first_match<L>(rows: Seq<RangeRow<L>>, octets: Seq<u8>, i: int)
    requires
        is_first_match(rows, octets, i),
    ensures
        first_match(rows, octets) == Some(rows[i].label),
{
}

/// Whether no address lies in the ranges of two rows of the table.
pub open spec fn rows_disjoint<L>(rows: Seq<RangeRow<L>>) -> bool {
    forall|a: int, b: int, octets: Seq<u8>|
        0 <= a < b < rows.len() ==> !(#[trigger] rows[a].holds(octets)
            && #[trigger] rows[b].holds(octets))
}

/// In a table whose ranges do not overlap the order of the rows does not
/// matter: the table says of an address what any row says that holds it.
pub proof fn lemma_disjoint_rows<L>(rows: Seq<RangeRow<L>>, octets: Seq<u8>, i: int)
    requires
        rows_disjoint(rows),
        0 <= i < rows.len(),
        rows[i].holds(octets),
    ensures
        first_match(rows, octets) == Some(rows[i].label),
{
    lemma_first_match(rows, octets, i);
}

/// Looks an address up in a table.
pub fn lookup<L: Copy>(rows: &[RangeRow<L>], addr: &Ipv4Addr) -> (found: Option<L>)
    ensures
        found == first_match(rows@, addr@),
{
    let mut i: usize = 0;
    while i < rows.len()
        invariant
            i <= rows.len(),
            forall|j: int| 0 <= j < i ==> !(#[trigger] rows@[j]).holds(addr@),
        decreases rows.len() - i,
    {
        if rows[i].matches(addr) {
            proof {
                lemma_first_match(rows@, addr@, i as int);
            }
            return Some(rows[i].label);
        }
        i += 1;
    }
    None
}

} // verus!
