//! The colon-hexadecimal notation of IPv6 addresses.

use crate::address::{embedded_octets, is_ipv4_mapped, Ipv4Addr, Ipv6Addr};
use crate::digits::{append_hex, bounded_hex, hex_text, hex_value, lemma_hex_text, parse_hex};
use crate::dotted::{ipv4_text, ipv4_value, lemma_ipv4_text_has_no_colon, lemma_ipv4_text_value};
use crate::text::{
    chars_of, join, lemma_join_single_separators, lemma_split_join, lemma_split_len,
    lemma_split_plain, split, split_slice,
};
use vstd::prelude::*;
use vstd::slice::slice_subrange;
use vstd::string::StringExecFns;

verus! {

/// The segment that `s` denotes: one to four hexadecimal digits of either
/// case. `None` for every other text.
pub open spec fn segment_value(s: Seq<char>) -> Option<u16> {
    if s.len() <= 4 {
        match bounded_hex(s, 0xFFFF) {
            Some(v) => Some(v as u16),
            None => None,
        }
    } else {
        None
    }
}

/// The two segments that hold four octets.
pub open spec fn octets_segments(octets: Seq<u8>) -> Seq<u16>
    recommends
        octets.len() == 4,
{
    seq![(octets[0] * 0x100 + octets[1]) as u16, (octets[2] * 0x100 + octets[3]) as u16]
}

/// The segments that the pieces denote, one each; `None` if one of them
/// denotes no segment.
pub open spec fn pieces_segments(pieces: Seq<Seq<char>>) -> Option<Seq<u16>> {
    if forall|i: int| 0 <= i < pieces.len() ==> segment_value(#[trigger] pieces[i]) is Some {
        Some(pieces.map_values(|p: Seq<char>| segment_value(p).unwrap()))
    } else {
        None
    }
}

/// The segments that `s` denotes as a list of groups separated by single
/// colons. Each group is one segment; where `allow_v4` holds, the last group
/// may instead be an IPv4 address in dotted-decimal notation, which gives two
/// segments. The empty text denotes no segments.
pub open spec fn groups_value(s: Seq<char>, allow_v4: bool) -> Option<Seq<u16>> {
    if s.len() == 0 {
        Some(Seq::<u16>::empty())
    } else {
        let pieces = split(s, ':');
        if allow_v4 && ipv4_value(pieces.last()) is Some {
            match pieces_segments(pieces.drop_last()) {
                Some(front) => Some(front + octets_segments(ipv4_value(pieces.last()).unwrap())),
                None => None,
            }
        } else {
            pieces_segments(pieces)
        }
    }
}

/// Whether two colons stand at the indices `k` and `k + 1` of `s`.
pub open spec fn double_colon_at(s: Seq<char>, k: int) -> bool {
    0 <= k && k + 1 < s.len() && s[k] == ':' && s[k + 1] == ':'
}

/// Whether `k` is the first index of `s` at which two colons stand.
pub open spec fn is_first_double_colon(s: Seq<char>, k: int) -> bool {
    double_colon_at(s, k) && forall|j: int| 0 <= j < k ==> !double_colon_at(s, j)
}

/// The first index of `s` at which two colons stand, if there is one.
pub open spec fn first_double_colon(s: Seq<char>) -> Option<int> {
    if exists|k: int| is_first_double_colon(s, k) {
        Some(choose|k: int| is_first_double_colon(s, k))
    } else {
        None
    }
}

/// `n` zero segments.
pub open spec fn zeros(n: nat) -> Seq<u16> {
    Seq::new(n, |i: int| 0u16)
}

/// The eight segments that `s` denotes in colon-hexadecimal notation. Without
/// a double colon, `s` is a list of groups that gives eight segments. With
/// one, the lists before and after the first of them give at most seven
/// segments, and zero segments fill the gap. `None` for every other text.
pub open spec fn ipv6_value(s: Seq<char>) -> Option<Seq<u16>> {
    match first_double_colon(s) {
        None => match groups_value(s, true) {
            Some(all) => if all.len() == 8 {
                Some(all)
            } else {
                None
            },
            None => None,
        },
        Some(k) => match (groups_value(s.take(k), false), groups_value(s.skip(k + 2), true)) {
            (Some(head), Some(tail)) => if head.len() + tail.len() <= 7 {
                Some(head + zeros((8 - head.len() - tail.len()) as nat) + tail)
            } else {
                None
            },
            _ => None,
        },
    }
}

/// The hexadecimal notations of the segments, with a colon between each two.
pub open spec fn hex_groups(segments: Seq<u16>) -> Seq<char> {
    join(segments.map_values(|x: u16| hex_text(x as nat, false)), ':')
}

/// The number of zero segments that follow each other from `start` on.
pub open spec fn zero_run(segments: Seq<u16>, start: int) -> nat
    decreases segments.len() - start,
{
    if 0 <= start < segments.len() && segments[start] == 0 {
        1 + zero_run(segments, start + 1)
    } else {
        0
    }
}

/// Whether the run of zero segments that the notation leaves out starts at
/// `start`: a run of two or more that no other run exceeds and no earlier run
/// equals.
pub open spec fn is_compressed_run(segments: Seq<u16>, start: int) -> bool {
    &&& 0 <= start < segments.len()
    &&& zero_run(segments, start) >= 2
    &&& forall|j: int|
        0 <= j < segments.len() ==> #[trigger] zero_run(segments, j) <= zero_run(segments, start)
    &&& forall|j: int|
        0 <= j < start ==> #[trigger] zero_run(segments, j) < zero_run(segments, start)
}

/// Where the run of zero segments that the notation leaves out starts, if
/// there is such a run.
pub open spec fn compressed_run(segments: Seq<u16>) -> Option<int> {
    if exists|start: int| is_compressed_run(segments, start) {
        Some(choose|start: int| is_compressed_run(segments, start))
    } else {
        None
    }
}

/// The colon-hexadecimal notation of eight segments. An IPv4-mapped address
/// is written as `::ffff:` and the dotted-decimal notation of the IPv4
/// address. In every other address the segments are written in hexadecimal,
/// in small letters and without leading zeros, and a double colon stands for
/// the first of the longest runs of two or more zero segments.
pub open spec fn ipv6_text(segments: Seq<u16>) -> Seq<char>
    recommends
        segments.len() == 8,
{
    if is_ipv4_mapped(segments) {
        "::ffff:"@ + ipv4_text(embedded_octets(segments))
    } else {
        match compressed_run(segments) {
            Some(start) => hex_groups(segments.take(start)) + "::"@ + hex_groups(
                segments.skip(start + zero_run(segments, start)),
            ),
            None => hex_groups(segments),
        }
    }
}

/// A text denotes only sequences of eight segments.
pub proof fn lemma_ipv6_value_len(s: Seq<char>)
    ensures
        ipv6_value(s) matches Some(segments) ==> segments.len() == 8,
{
}

/// A text that denotes an IPv6 address holds a colon.
pub proof fn lemma_ipv6_value_has_colon(s: Seq<char>)
    requires
        ipv6_value(s) is Some,
    ensures
        s.contains(':'),
{
    if first_double_colon(s) is None && !s.contains(':') {
        lemma_split_plain(s, ':');
    }
}

/// An index at which two colons stand first is the first such index.
pub proof fn lemma_first_double_colon(s: Seq<char>, k: int)
    requires
        is_first_double_colon(s, k),
    ensures
        first_double_colon(s) == Some(k),
{
}

/// A run that is left out is the only one that can be left out.
pub proof fn lemma_compressed_run(segments: Seq<u16>, start: int)
    requires
        is_compressed_run(segments, start),
    ensures
        compressed_run(segments) == Some(start),
{
}

/// A run of zero segments ends within the sequence.
pub proof fn lemma_zero_run_bound(segments: Seq<u16>, start: int)
    requires
        0 <= start <= segments.len(),
    ensures
        start + zero_run(segments, start) <= segments.len(),
        forall|j: int| start <= j < start + zero_run(segments, start) ==> segments[j] == 0,
    decreases segments.len() - start,
{
    if start < segments.len() && segments[start] == 0 {
        lemma_zero_run_bound(segments, start + 1);
    }
}

/// The hexadecimal notation of a segment denotes that segment, is not empty,
/// and holds neither a colon nor a dot.
pub proof fn lemma_segment_text(x: u16)
    ensures
        segment_value(hex_text(x as nat, false)) == Some(x),
        hex_text(x as nat, false).len() >= 1,
        !hex_text(x as nat, false).contains(':'),
        !hex_text(x as nat, false).contains('.'),
{
    lemma_hex_text(x as nat, false);
}

/// A text without a dot denotes no IPv4 address.
pub proof fn lemma_dotless_is_no_ipv4(s: Seq<char>)
    requires
        !s.contains('.'),
    ensures
        ipv4_value(s) is None,
{
    lemma_split_plain(s, '.');
}

/// The hexadecimal notations of one or more segments, joined by colons, are a
/// list of groups that denotes these segments. The list is not empty, has no
/// colon at either end and no double colon.
pub proof fn lemma_hex_groups_value(segments: Seq<u16>, allow_v4: bool)
    requires
        segments.len() >= 1,
    ensures
        groups_value(hex_groups(segments), allow_v4) == Some(segments),
        hex_groups(segments).len() >= 1,
        hex_groups(segments).first() != ':',
        hex_groups(segments).last() != ':',
        forall|k: int| !double_colon_at(hex_groups(segments), k),
{
    let parts = segments.map_values(|x: u16| hex_text(x as nat, false));
    assert forall|i: int| 0 <= i < parts.len() implies (#[trigger] parts[i]).len() >= 1
        && !parts[i].contains(':') && !parts[i].contains('.') && segment_value(parts[i]) == Some(
        segments[i],
    ) by {
        lemma_segment_text(segments[i]);
    }
    lemma_join_single_separators(parts, ':');
    lemma_split_join(parts, ':');
    lemma_dotless_is_no_ipv4(parts.last());
}

/// The notation of an IPv4-mapped address denotes the address.
proof fn lemma_mapped_text_value(segments: Seq<u16>)
    requires
        segments.len() == 8,
        is_ipv4_mapped(segments),
    ensures
        ipv6_value(ipv6_text(segments)) == Some(segments),
{
    reveal_strlit("::ffff:");
    let octets = embedded_octets(segments);
    let dotted = ipv4_text(octets);
    let text = ipv6_text(segments);
    lemma_first_double_colon(text, 0);
    let group = seq!['f', 'f', 'f', 'f'];
    let tail = text.skip(2);
    let parts = seq![group, dotted];
    assert(join(parts.drop_last(), ':') == group);
    assert(tail =~= join(parts, ':'));
    lemma_ipv4_text_has_no_colon(octets);
    lemma_split_join(parts, ':');
    lemma_ipv4_text_value(octets);
    assert(hex_value(group) == 0xFFFF) by {
        reveal_with_fuel(hex_value, 5);
    }
}

/// The notation of an address that is written with a double colon denotes the
/// address.
proof fn lemma_compressed_text_value(segments: Seq<u16>, start: int)
    requires
        segments.len() == 8,
        !is_ipv4_mapped(segments),
        compressed_run(segments) == Some(start),
        is_compressed_run(segments, start),
    ensures
        ipv6_value(ipv6_text(segments)) == Some(segments),
{
    reveal_strlit("::");
    let run = zero_run(segments, start);
    lemma_zero_run_bound(segments, start);
    let head = segments.take(start);
    let tail = segments.skip(start + run);
    let head_text = hex_groups(head);
    let tail_text = hex_groups(tail);
    let text = ipv6_text(segments);
    let k = head_text.len() as int;
    if head.len() >= 1 {
        lemma_hex_groups_value(head, false);
    }
    if tail.len() >= 1 {
        lemma_hex_groups_value(tail, true);
    }
    assert forall|j: int| 0 <= j < k implies !double_colon_at(text, j) by {
        if j + 1 < k {
            assert(!double_colon_at(head_text, j));
        }
    }
    lemma_first_double_colon(text, k);
    assert(text.take(k) =~= head_text);
    assert(text.skip(k + 2) =~= tail_text);
}

/// Reading the colon-hexadecimal notation of an address gives the address.
pub proof fn lemma_ipv6_text_value(segments: Seq<u16>)
    requires
        segments.len() == 8,
    ensures
        ipv6_value(ipv6_text(segments)) == Some(segments),
{
    if is_ipv4_mapped(segments) {
        lemma_mapped_text_value(segments);
    } else {
        match compressed_run(segments) {
            Some(start) => {
                lemma_compressed_text_value(segments, start);
            },
            None => {
                lemma_hex_groups_value(segments, true);
            },
        }
    }
}

/// The colon-hexadecimal notation of an address holds a colon.
pub proof fn lemma_ipv6_text_has_colon(segments: Seq<u16>)
    requires
        segments.len() == 8,
    ensures
        ipv6_text(segments).contains(':'),
{
    let text = ipv6_text(segments);
    if is_ipv4_mapped(segments) {
        reveal_strlit("::ffff:");
        assert(text[0] == ':');
    } else {
        match compressed_run(segments) {
            Some(start) => {
                reveal_strlit("::");
                let k = hex_groups(segments.take(start)).len() as int;
                assert(text[k] == ':');
            },
            None => {
                let parts = segments.map_values(|x: u16| hex_text(x as nat, false));
                let k = join(parts.drop_last(), ':').len() as int;
                assert(text[k] == ':');
            },
        }
    }
}

/// Reads one group of hexadecimal digits.
pub fn parse_segment(s: &[char]) -> (parsed: Option<u16>)
    ensures
        parsed == segment_value(s@),
{
    if s.len() > 4 {
        return None;
    }
    match parse_hex(s, 0xFFFF) {
        Some(v) => Some(v as u16),
        None => None,
    }
}

/// Finds the first double colon.
pub fn find_double_colon(s: &[char]) -> (found: Option<usize>)
    ensures
        match found {
            Some(k) => first_double_colon(s@) == Some(k as int) && k + 2 <= s.len(),
            None => first_double_colon(s@) is None,
        },
{
    let mut pos: usize = 1;
    while pos < s.len()
        invariant
            1 <= pos,
            forall|j: int| 0 <= j < pos - 1 ==> !double_colon_at(s@, j),
        decreases s.len() - pos,
    {
        if s[pos - 1] == ':' && s[pos] == ':' {
            proof {
                lemma_first_double_colon(s@, pos - 1);
            }
            return Some(pos - 1);
        }
        pos += 1;
    }
    None
}

/// Reads a list of groups separated by single colons.
pub fn parse_groups(s: &[char], allow_v4: bool) -> (parsed: Option<Vec<u16>>)
    ensures
        parsed is Some <==> groups_value(s@, allow_v4) is Some,
        parsed matches Some(segments) ==> groups_value(s@, allow_v4) == Some(segments@),
{
    let mut segments: Vec<u16> = Vec::new();
    if s.len() == 0 {
        return Some(segments);
    }
    let pieces = split_slice(s, ':');
    let ghost parts = split(s@, ':');
    proof {
        lemma_split_len(s@, ':');
    }
    let count = pieces.len();
    let embedded: Option<Ipv4Addr> = if allow_v4 {
        Ipv4Addr::from_chars(pieces[count - 1])
    } else {
        None
    };
    let plain: usize = if embedded.is_some() {
        count - 1
    } else {
        count
    };
    let ghost plain_parts = parts.take(plain as int);
    let mut i: usize = 0;
    while i < plain
        invariant
            i <= plain <= count,
            count == pieces.len(),
            parts.len() == count,
            count >= 1,
            s@.len() > 0,
            parts == split(s@, ':'),
            plain_parts == parts.take(plain as int),
            (allow_v4 && ipv4_value(parts.last()) is Some) ==> plain_parts == parts.drop_last(),
            !(allow_v4 && ipv4_value(parts.last()) is Some) ==> plain_parts == parts,
            forall|j: int| 0 <= j < parts.len() ==> parts[j] == pieces[j]@,
            segments.len() == i,
            forall|j: int|
                0 <= j < i ==> segment_value(#[trigger] plain_parts[j]) == Some(segments[j]),
        decreases plain - i,
    {
        match parse_segment(pieces[i]) {
            None => {
                proof {
                    assert(segment_value(plain_parts[i as int]) is None);
                }
                return None;
            },
            Some(v) => {
                segments.push(v);
            },
        }
        i += 1;
    }
    match embedded {
        Some(v4) => {
            let o = v4.octets();
            segments.push((o[0] as u16) * 0x100 + o[1] as u16);
            segments.push((o[2] as u16) * 0x100 + o[3] as u16);
        },
        None => {},
    }
    Some(segments)
}

/// The array that holds the eight elements of `all`.
fn segments_array(all: &Vec<u16>) -> (segments: [u16; 8])
    requires
        all.len() == 8,
    ensures
        segments@ == all@,
{
    [all[0], all[1], all[2], all[3], all[4], all[5], all[6], all[7]]
}

/// The segments before a double colon, the zero segments that it stands for,
/// and the segments after it.
fn fill_gap(head: &Vec<u16>, tail: &Vec<u16>) -> (all: Vec<u16>)
    requires
        head.len() + tail.len() <= 7,
    ensures
        all@ == head@ + zeros((8 - head.len() - tail.len()) as nat) + tail@,
{
    let gap: usize = 8 - head.len() - tail.len();
    let mut all: Vec<u16> = Vec::new();
    let mut i: usize = 0;
    while i < head.len()
        invariant
            i <= head.len(),
            all@ == head@.take(i as int),
        decreases head.len() - i,
    {
        all.push(head[i]);
        i += 1;
    }
    i = 0;
    while i < gap
        invariant
            i <= gap,
            all@ == head@ + zeros(i as nat),
        decreases gap - i,
    {
        all.push(0);
        i += 1;
    }
    i = 0;
    while i < tail.len()
        invariant
            i <= tail.len(),
            all@ == head@ + zeros(gap as nat) + tail@.take(i as int),
        decreases tail.len() - i,
    {
        all.push(tail[i]);
        i += 1;
    }
    all
}

impl Ipv6Addr {
    /// Reads an address in colon-hexadecimal notation.
    pub fn from_chars(s: &[char]) -> (parsed: Option<Ipv6Addr>)
        ensures
            parsed is Some <==> ipv6_value(s@) is Some,
            parsed matches Some(addr) ==> ipv6_value(s@) == Some(addr@),
    {
        match find_double_colon(s) {
            None => {
                match parse_groups(s, true) {
                    Some(all) => {
                        if all.len() == 8 {
                            Some(Ipv6Addr { segments: segments_array(&all) })
                        } else {
                            None
                        }
                    },
                    None => None,
                }
            },
            Some(k) => {
                let head = match parse_groups(slice_subrange(s, 0, k), false) {
                    Some(head) => head,
                    None => {
                        return None;
                    },
                };
                let tail = match parse_groups(slice_subrange(s, k + 2, s.len()), true) {
                    Some(tail) => tail,
                    None => {
                        return None;
                    },
                };
                if head.len() > 7 || tail.len() > 7 - head.len() {
                    return None;
                }
                let all = fill_gap(&head, &tail);
                Some(Ipv6Addr { segments: segments_array(&all) })
            },
        }
    }

    /// Reads an address in colon-hexadecimal notation.
    pub fn from_text(s: &str) -> (parsed: Option<Ipv6Addr>)
        ensures
            parsed is Some <==> ipv6_value(s@) is Some,
            parsed matches Some(addr) ==> ipv6_value(s@) == Some(addr@),
    {
        let chars = chars_of(s);
        Ipv6Addr::from_chars(chars.as_slice())
    }
}

/// Counts the zero segments that follow each other from `start` on.
fn run_length(segments: &[u16; 8], start: usize) -> (len: usize)
    requires
        start <= 8,
    ensures
        len == zero_run(segments@, start as int),
        start + len <= 8,
{
    let mut end: usize = start;
    while end < 8 && segments[end] == 0
        invariant
            start <= end <= 8,
            zero_run(segments@, start as int) == (end - start) + zero_run(segments@, end as int),
        decreases 8 - end,
    {
        end += 1;
    }
    end - start
}

/// Finds the first of the longest runs of zero segments.
fn longest_run(segments: &[u16; 8]) -> (best: (usize, usize))
    ensures
        best.0 < 8,
        best.0 + best.1 <= 8,
        best.1 == zero_run(segments@, best.0 as int),
        forall|j: int| 0 <= j < 8 ==> #[trigger] zero_run(segments@, j) <= best.1,
        forall|j: int| 0 <= j < best.0 ==> #[trigger] zero_run(segments@, j) < best.1,
{
    let mut start: usize = 0;
    let mut len: usize = run_length(segments, 0);
    let mut pos: usize = 1;
    while pos < 8
        invariant
            1 <= pos <= 8,
            start < pos,
            start + len <= 8,
            len == zero_run(segments@, start as int),
            forall|j: int| 0 <= j < pos ==> #[trigger] zero_run(segments@, j) <= len,
            forall|j: int| 0 <= j < start ==> #[trigger] zero_run(segments@, j) < len,
        decreases 8 - pos,
    {
        let here = run_length(segments, pos);
        if here > len {
            start = pos;
            len = here;
        }
        pos += 1;
    }
    (start, len)
}

/// Appends the hexadecimal notations of the segments from `from` up to `to`,
/// with a colon between each two.
fn append_groups(out: &mut String, segments: &[u16; 8], from: usize, to: usize)
    requires
        from <= to <= 8,
    ensures
        final(out)@ == old(out)@ + hex_groups(segments@.subrange(from as int, to as int)),
{
    let ghost part = segments@.subrange(from as int, to as int);
    let ghost texts = part.map_values(|x: u16| hex_text(x as nat, false));
    let mut pos: usize = from;
    while pos < to
        invariant
            from <= pos <= to <= 8,
            part == segments@.subrange(from as int, to as int),
            texts == part.map_values(|x: u16| hex_text(x as nat, false)),
            out@ == old(out)@ + join(texts.take(pos - from), ':'),
        decreases to - pos,
    {
        if pos > from {
            out.append(":");
        }
        append_hex(out, segments[pos] as u32, false);
        proof {
            reveal_strlit(":");
            let k = pos - from;
            assert(texts.take(k + 1).drop_last() =~= texts.take(k));
        }
        pos += 1;
    }
    proof {
        assert(texts.take(to - from) =~= texts);
    }
}

impl Ipv6Addr {
    /// Appends the colon-hexadecimal notation of the address to `out`.
    pub fn append_text(&self, out: &mut String)
        ensures
            final(out)@ == old(out)@ + ipv6_text(self@),
    {
        match self.to_ipv4_mapped() {
            Some(v4) => {
                out.append("::ffff:");
                v4.append_text(out);
            },
            None => {
                let (start, len) = longest_run(&self.segments);
                if len >= 2 {
                    proof {
                        lemma_compressed_run(self@, start as int);
                    }
                    append_groups(out, &self.segments, 0, start);
                    out.append("::");
                    append_groups(out, &self.segments, start + len, 8);
                } else {
                    proof {
                        assert(self@.subrange(0, 8) =~= self@);
                    }
                    append_groups(out, &self.segments, 0, 8);
                }
            },
        }
    }

    /// The colon-hexadecimal notation of the address.
    pub fn to_text(&self) -> (text: String)
        ensures
            text@ == ipv6_text(self@),
    {
        let mut text = String::new();
        self.append_text(&mut text);
        text
    }
}

} // verus!
