//! Numbers as text, in decimal and in hexadecimal notation.

use vstd::prelude::*;
use vstd::string::StringExecFns;

verus! {

/// The character for the digit `d`, with capital letters above nine if `upper`.
pub open spec fn digit_char(d: nat, upper: bool) -> char
    recommends
        d < 16,
{
    if d < 10 {
        (d + 48) as char
    } else if upper {
        (d + 55) as char
    } else {
        (d + 87) as char
    }
}

/// The value of the decimal digit `c`; `None` if `c` is no decimal digit.
pub open spec fn decimal_digit(c: char) -> Option<nat> {
    if '0' <= c <= '9' {
        Some((c as int - 48) as nat)
    } else {
        None
    }
}

/// The value of the hexadecimal digit `c`, of either case; `None` if `c` is no
/// hexadecimal digit.
pub open spec fn hex_digit(c: char) -> Option<nat> {
    if '0' <= c <= '9' {
        Some((c as int - 48) as nat)
    } else if 'a' <= c <= 'f' {
        Some((c as int - 87) as nat)
    } else if 'A' <= c <= 'F' {
        Some((c as int - 55) as nat)
    } else {
        None
    }
}

/// Whether every character of `s` is a decimal digit.
pub open spec fn is_decimal(s: Seq<char>) -> bool {
    forall|i: int| 0 <= i < s.len() ==> decimal_digit(#[trigger] s[i]) is Some
}

/// Whether every character of `s` is a hexadecimal digit.
pub open spec fn is_hex(s: Seq<char>) -> bool {
    forall|i: int| 0 <= i < s.len() ==> hex_digit(#[trigger] s[i]) is Some
}

/// The number that the decimal digits `s` denote, most significant digit first.
pub open spec fn decimal_value(s: Seq<char>) -> nat
    recommends
        is_decimal(s),
    decreases s.len(),
{
    if s.len() == 0 {
        0
    } else {
        decimal_value(s.drop_last()) * 10 + decimal_digit(s.last()).unwrap_or(0)
    }
}

/// The number that the hexadecimal digits `s` denote, most significant digit
/// first.
pub open spec fn hex_value(s: Seq<char>) -> nat
    recommends
        is_hex(s),
    decreases s.len(),
{
    if s.len() == 0 {
        0
    } else {
        hex_value(s.drop_last()) * 16 + hex_digit(s.last()).unwrap_or(0)
    }
}

/// The decimal notation of `n`, without leading zeros.
pub open spec fn decimal_text(n: nat) -> Seq<char>
    decreases n,
{
    if n < 10 {
        seq![digit_char(n, false)]
    } else {
        decimal_text(n / 10).push(digit_char(n % 10, false))
    }
}

/// The hexadecimal notation of `n`, without leading zeros.
pub open spec fn hex_text(n: nat, upper: bool) -> Seq<char>
    decreases n,
{
    if n < 16 {
        seq![digit_char(n, upper)]
    } else {
        hex_text(n / 16, upper).push(digit_char(n % 16, upper))
    }
}

/// The decimal notation of a number is made of digits, denotes that number,
/// and starts with a zero only where the number is below ten.
pub proof fn lemma_decimal_text(n: nat)
    ensures
        decimal_text(n).len() >= 1,
        is_decimal(decimal_text(n)),
        decimal_value(decimal_text(n)) == n,
        n >= 10 ==> decimal_text(n)[0] != '0',
        n < 10 ==> decimal_text(n).len() == 1,
    decreases n,
{
    let t = decimal_text(n);
    if n < 10 {
        assert(decimal_value(t.drop_last()) == 0);
    } else {
        lemma_decimal_text(n / 10);
        assert(t.drop_last() =~= decimal_text(n / 10));
    }
}

/// The hexadecimal notation of a number is made of digits and denotes that
/// number; that of a number below 65536 has at most four digits.
pub proof fn lemma_hex_text(n: nat, upper: bool)
    ensures
        hex_text(n, upper).len() >= 1,
        is_hex(hex_text(n, upper)),
        hex_value(hex_text(n, upper)) == n,
        n < 0x10 ==> hex_text(n, upper).len() == 1,
        n < 0x100 ==> hex_text(n, upper).len() <= 2,
        n < 0x1000 ==> hex_text(n, upper).len() <= 3,
        n < 0x1_0000 ==> hex_text(n, upper).len() <= 4,
    decreases n,
{
    let t = hex_text(n, upper);
    if n < 16 {
        assert(hex_value(t.drop_last()) == 0);
    } else {
        lemma_hex_text(n / 16, upper);
        assert(t.drop_last() =~= hex_text(n / 16, upper));
    }
}

/// Digits without a leading zero are the decimal notation of the number that
/// they denote.
pub proof fn lemma_decimal_canonical(s: Seq<char>)
    requires
        s.len() >= 1,
        is_decimal(s),
        s.len() == 1 || s[0] != '0',
    ensures
        decimal_text(decimal_value(s)) == s,
    decreases s.len(),
{
    let front = s.drop_last();
    if s.len() == 1 {
        assert(decimal_value(front) == 0);
    } else {
        lemma_decimal_canonical(front);
    }
}

/// A prefix of decimal digits denotes no more than the whole.
pub proof fn lemma_decimal_value_prefix(s: Seq<char>, k: int)
    requires
        0 <= k <= s.len(),
    ensures
        decimal_value(s.take(k)) <= decimal_value(s),
    decreases s.len() - k,
{
    if k == s.len() {
        assert(s.take(k) =~= s);
    } else {
        lemma_decimal_value_prefix(s.drop_last(), k);
        assert(s.drop_last().take(k) =~= s.take(k));
    }
}

/// A prefix of hexadecimal digits denotes no more than the whole.
pub proof fn lemma_hex_value_prefix(s: Seq<char>, k: int)
    requires
        0 <= k <= s.len(),
    ensures
        hex_value(s.take(k)) <= hex_value(s),
    decreases s.len() - k,
{
    if k == s.len() {
        assert(s.take(k) =~= s);
    } else {
        lemma_hex_value_prefix(s.drop_last(), k);
        assert(s.drop_last().take(k) =~= s.take(k));
    }
}

/// The value of a decimal digit character.
pub fn decimal_digit_of(c: char) -> (d: Option<u8>)
    ensures
        d is Some <==> decimal_digit(c) is Some,
        d matches Some(v) ==> decimal_digit(c) == Some(v as nat),
{
    if c >= '0' && c <= '9' {
        Some((c as u32 - 48) as u8)
    } else {
        None
    }
}

/// The value of a hexadecimal digit character.
pub fn hex_digit_of(c: char) -> (d: Option<u8>)
    ensures
        d is Some <==> hex_digit(c) is Some,
        d matches Some(v) ==> hex_digit(c) == Some(v as nat),
{
    if c >= '0' && c <= '9' {
        Some((c as u32 - 48) as u8)
    } else if c >= 'a' && c <= 'f' {
        Some((c as u32 - 87) as u8)
    } else if c >= 'A' && c <= 'F' {
        Some((c as u32 - 55) as u8)
    } else {
        None
    }
}

/// The number that `s` denotes in decimal, where `s` is one or more decimal
/// digits and the number is at most `limit`.
pub open spec fn bounded_decimal(s: Seq<char>, limit: nat) -> Option<nat> {
    if s.len() >= 1 && is_decimal(s) && decimal_value(s) <= limit {
        Some(decimal_value(s))
    } else {
        None
    }
}

/// The number that `s` denotes in hexadecimal, where `s` is one or more
/// hexadecimal digits and the number is at most `limit`.
pub open spec fn bounded_hex(s: Seq<char>, limit: nat) -> Option<nat> {
    if s.len() >= 1 && is_hex(s) && hex_value(s) <= limit {
        Some(hex_value(s))
    } else {
        None
    }
}

/// Reads a decimal number of any length that is at most `limit`.
pub fn parse_decimal(s: &[char], limit: u32) -> (parsed: Option<u32>)
    ensures
        parsed is Some <==> bounded_decimal(s@, limit as nat) is Some,
        parsed matches Some(v) ==> bounded_decimal(s@, limit as nat) == Some(v as nat),
{
    if s.len() == 0 {
        return None;
    }
    let mut value: u64 = 0;
    let mut pos: usize = 0;
    while pos < s.len()
        invariant
            pos <= s.len(),
            is_decimal(s@.take(pos as int)),
            value == decimal_value(s@.take(pos as int)),
            value <= limit,
        decreases s.len() - pos,
    {
        proof {
            assert(s@.take(pos + 1).drop_last() =~= s@.take(pos as int));
        }
        match decimal_digit_of(s[pos]) {
            None => {
                return None;
            },
            Some(d) => {
                value = value * 10 + d as u64;
                if value > limit as u64 {
                    proof {
                        lemma_decimal_value_prefix(s@, pos + 1);
                    }
                    return None;
                }
            },
        }
        pos += 1;
    }
    proof {
        assert(s@.take(pos as int) =~= s@);
    }
    Some(value as u32)
}

/// Reads a hexadecimal number of any length that is at most `limit`.
pub fn parse_hex(s: &[char], limit: u32) -> (parsed: Option<u32>)
    ensures
        parsed is Some <==> bounded_hex(s@, limit as nat) is Some,
        parsed matches Some(v) ==> bounded_hex(s@, limit as nat) == Some(v as nat),
{
    if s.len() == 0 {
        return None;
    }
    let mut value: u64 = 0;
    let mut pos: usize = 0;
    while pos < s.len()
        invariant
            pos <= s.len(),
            is_hex(s@.take(pos as int)),
            value == hex_value(s@.take(pos as int)),
            value <= limit,
        decreases s.len() - pos,
    {
        proof {
            assert(s@.take(pos + 1).drop_last() =~= s@.take(pos as int));
        }
        match hex_digit_of(s[pos]) {
            None => {
                return None;
            },
            Some(d) => {
                value = value * 16 + d as u64;
                if value > limit as u64 {
                    proof {
                        lemma_hex_value_prefix(s@, pos + 1);
                    }
                    return None;
                }
            },
        }
        pos += 1;
    }
    proof {
        assert(s@.take(pos as int) =~= s@);
    }
    Some(value as u32)
}

/// The one-character string of a digit.
fn digit_str(d: u32, upper: bool) -> (s: &'static str)
    requires
        d < 16,
    ensures
        s@ == seq![digit_char(d as nat, upper)],
{
    proof {
        reveal_strlit("0");
        reveal_strlit("1");
        reveal_strlit("2");
        reveal_strlit("3");
        reveal_strlit("4");
        reveal_strlit("5");
        reveal_strlit("6");
        reveal_strlit("7");
        reveal_strlit("8");
        reveal_strlit("9");
        reveal_strlit("a");
        reveal_strlit("b");
        reveal_strlit("c");
        reveal_strlit("d");
        reveal_strlit("e");
        reveal_strlit("f");
        reveal_strlit("A");
        reveal_strlit("B");
        reveal_strlit("C");
        reveal_strlit("D");
        reveal_strlit("E");
        reveal_strlit("F");
    }
    match d {
        0 => "0",
        1 => "1",
        2 => "2",
        3 => "3",
        4 => "4",
        5 => "5",
        6 => "6",
        7 => "7",
        8 => "8",
        9 => "9",
        10 => if upper {
            "A"
        } else {
            "a"
        },
        11 => if upper {
            "B"
        } else {
            "b"
        },
        12 => if upper {
            "C"
        } else {
            "c"
        },
        13 => if upper {
            "D"
        } else {
            "d"
        },
        14 => if upper {
            "E"
        } else {
            "e"
        },
        _ => if upper {
            "F"
        } else {
            "f"
        },
    }
}

/// Appends the decimal notation of `n` to `out`.
pub fn append_decimal(out: &mut String, n: u32)
    ensures
        final(out)@ == old(out)@ + decimal_text(n as nat),
    decreases n,
{
    if n >= 10 {
        append_decimal(out, n / 10);
    }
    out.append(digit_str(n % 10, false));
}

/// Appends the hexadecimal notation of `n` to `out`.
pub fn append_hex(out: &mut String, n: u32, upper: bool)
    ensures
        final(out)@ == old(out)@ + hex_text(n as nat, upper),
    decreases n,
{
    if n >= 16 {
        append_hex(out, n / 16, upper);
    }
    out.append(digit_str(n % 16, upper));
}

} // verus!
