//! Numbers in text: decimal rendering, integer parsing and fixed-point rendering.

use crate::text::chars_of;
use vstd::prelude::*;
use vstd::string::*;

verus! {

pub open spec fn digit_char(d: nat) -> char {
    ((48 + d) as u32) as char
}

/// The decimal digits of a number.
pub open spec fn dec(n: nat) -> Seq<char>
    decreases n,
{
    if n < 10 {
        seq![digit_char(n)]
    } else {
        dec(n / 10).push(digit_char(n % 10))
    }
}

/// The decimal digits of a number that may be missing, or a stand-in.
pub open spec fn dec_or(n: Option<u64>, other: Seq<char>) -> Seq<char> {
    match n {
        Some(v) => dec(v as nat),
        None => other,
    }
}

fn digit(d: u8) -> (c: char)
    requires
        d < 10,
    ensures
        c == digit_char(d as nat),
{
    (48 + d) as char
}

/// Renders a number in decimal.
pub fn wide_num(n: u128) -> (r: String)
    ensures
        r@ == dec(n as nat),
    decreases n,
{
    if n < 10 {
        let mut s = String::new();
        s.push(digit(n as u8));
        assert(s@ =~= seq![digit_char(n as nat)]);
        s
    } else {
        let mut s = wide_num(n / 10);
        s.push(digit((n % 10) as u8));
        s
    }
}

pub fn num(n: u64) -> (r: String)
    ensures
        r@ == dec(n as nat),
{
    wide_num(n as u128)
}

pub fn num_or(n: Option<u64>, other: &str) -> (r: String)
    ensures
        r@ == dec_or(n, other@),
{
    match n {
        Some(v) => num(v),
        None => other.to_owned(),
    }
}

/// The value of a digit in a radix of at most sixteen.
pub open spec fn digit_value(c: char, radix: nat) -> Option<nat> {
    let v: int = if '0' <= c && c <= '9' {
        c as int - '0' as int
    } else if 'a' <= c && c <= 'f' {
        c as int - 'a' as int + 10
    } else if 'A' <= c && c <= 'F' {
        c as int - 'A' as int + 10
    } else {
        16
    };
    if v < radix {
        Some(v as nat)
    } else {
        None
    }
}

fn value_of(c: char, radix: u32) -> (r: Option<u32>)
    requires
        2 <= radix <= 16,
    ensures
        r matches Some(v) ==> digit_value(c, radix as nat) == Some(v as nat) && v < radix,
        r is None ==> digit_value(c, radix as nat) is None,
{
    let v: u32 = if '0' <= c && c <= '9' {
        c as u32 - '0' as u32
    } else if 'a' <= c && c <= 'f' {
        c as u32 - 'a' as u32 + 10
    } else if 'A' <= c && c <= 'F' {
        c as u32 - 'A' as u32 + 10
    } else {
        16
    };
    if v < radix {
        Some(v)
    } else {
        None
    }
}

/// The number that a non-empty run of digits writes.
pub open spec fn digits_value(s: Seq<char>, radix: nat) -> Option<nat>
    decreases s.len(),
{
    if s.len() == 0 {
        None
    } else if s.len() == 1 {
        digit_value(s[0], radix)
    } else {
        match (digits_value(s.drop_last(), radix), digit_value(s.last(), radix)) {
            (Some(v), Some(d)) => Some(v * radix + d),
            _ => None,
        }
    }
}

/// A prefix of a run of digits writes a number that is no greater.
proof fn lemma_digits_prefix(s: Seq<char>, radix: nat, i: int)
    requires
        1 <= i <= s.len(),
        radix >= 1,
        digits_value(s, radix) is Some,
    ensures
        digits_value(s.take(i), radix) is Some,
        digits_value(s.take(i), radix)->0 <= digits_value(s, radix)->0,
    decreases s.len(),
{
    if i == s.len() {
        assert(s.take(i) =~= s);
    } else {
        lemma_digits_prefix(s.drop_last(), radix, i);
        assert(s.drop_last().take(i) =~= s.take(i));
        let v = digits_value(s.drop_last(), radix)->0;
        assert(v <= v * radix) by (nonlinear_arith)
            requires
                radix >= 1,
        ;
    }
}

/// An unsigned number of at most `max`, after an optional plus sign.
pub open spec fn parsed_nat(s: Seq<char>, radix: nat, max: nat) -> Option<nat> {
    let digits = if s.len() > 0 && s[0] == '+' {
        s.skip(1)
    } else {
        s
    };
    match digits_value(digits, radix) {
        Some(v) => if v <= max {
            Some(v)
        } else {
            None
        },
        None => None,
    }
}

/// Reads the digits of `chars[from..]`.
fn read_digits(chars: &Vec<char>, from: usize, radix: u32, max: u64) -> (r: Option<u64>)
    requires
        from <= chars@.len(),
        2 <= radix <= 16,
    ensures
        r matches Some(v) ==> digits_value(chars@.skip(from as int), radix as nat) == Some(v as nat)
            && v <= max,
        r is None ==> (digits_value(chars@.skip(from as int), radix as nat) matches Some(v) ==> v
            > max),
{
    let ghost all = chars@.skip(from as int);
    if from == chars.len() {
        return None;
    }
    let mut acc: u64 = 0;
    let mut i: usize = from;
    while i < chars.len()
        invariant
            from <= i <= chars@.len(),
            from < chars@.len(),
            2 <= radix <= 16,
            all == chars@.skip(from as int),
            i == from ==> acc == 0,
            i > from ==> digits_value(all.take(i - from), radix as nat) == Some(acc as nat),
            acc <= max,
        decreases chars@.len() - i,
    {
        let ghost next = all.take(i - from + 1);
        proof {
            assert(next.last() == chars@[i as int]);
            assert(next.drop_last() =~= all.take(i - from));
            if i == from {
                assert(next[0] == chars@[i as int]);
            }
        }
        match value_of(chars[i], radix) {
            None => {
                proof {
                    if digits_value(all, radix as nat) is Some {
                        lemma_digits_prefix(all, radix as nat, i - from + 1);
                    }
                }
                return None;
            },
            Some(d) => {
                assert(acc * radix <= u64::MAX * 16) by (nonlinear_arith)
                    requires
                        acc <= u64::MAX,
                        radix <= 16,
                ;
                assert(acc * radix >= 0) by (nonlinear_arith);
                let wide: u128 = (acc as u128) * (radix as u128) + (d as u128);
                assert(digits_value(next, radix as nat) == Some(wide as nat));
                if wide > max as u128 {
                    proof {
                        if digits_value(all, radix as nat) is Some {
                            lemma_digits_prefix(all, radix as nat, i - from + 1);
                        }
                    }
                    return None;
                }
                acc = wide as u64;
            },
        }
        i += 1;
    }
    assert(all.take(i - from) =~= all);
    Some(acc)
}

/// Reads an unsigned number of at most `max`.
pub fn parse_upto(s: &str, radix: u32, max: u64) -> (r: Option<u64>)
    requires
        2 <= radix <= 16,
    ensures
        r matches Some(v) ==> parsed_nat(s@, radix as nat, max as nat) == Some(v as nat) && v <= max,
        r is None ==> parsed_nat(s@, radix as nat, max as nat) is None,
{
    let chars = chars_of(s);
    let from: usize = if chars.len() > 0 && chars[0] == '+' {
        1
    } else {
        0
    };
    assert(chars@.skip(0) =~= chars@);
    read_digits(&chars, from, radix, max)
}

/// What `u64::from_str` reads.
pub open spec fn parsed_u64(s: Seq<char>) -> Option<u64> {
    match parsed_nat(s, 10, u64::MAX as nat) {
        Some(v) => Some(v as u64),
        None => None,
    }
}

pub fn parse_u64(s: &str) -> (r: Option<u64>)
    ensures
        r == parsed_u64(s@),
{
    parse_upto(s, 10, u64::MAX)
}

/// What `usize::from_str_radix` reads.
pub open spec fn parsed_usize(s: Seq<char>, radix: nat) -> Option<usize> {
    match parsed_nat(s, radix, usize::MAX as nat) {
        Some(v) => Some(v as usize),
        None => None,
    }
}

pub fn parse_usize(s: &str, radix: u32) -> (r: Option<usize>)
    requires
        2 <= radix <= 16,
    ensures
        r == parsed_usize(s@, radix as nat),
{
    match parse_upto(s, radix, usize::MAX as u64) {
        Some(v) => Some(v as usize),
        None => None,
    }
}

/// What `u16::from_str` reads.
pub open spec fn parsed_u16(s: Seq<char>) -> Option<u16> {
    match parsed_nat(s, 10, u16::MAX as nat) {
        Some(v) => Some(v as u16),
        None => None,
    }
}

pub fn parse_u16(s: &str) -> (r: Option<u16>)
    ensures
        r == parsed_u16(s@),
{
    match parse_upto(s, 10, 65535) {
        Some(v) => Some(v as u16),
        None => None,
    }
}

/// What `i64::from_str` reads.
pub open spec fn parsed_i64(s: Seq<char>) -> Option<int> {
    if s.len() > 0 && s[0] == '-' {
        match digits_value(s.skip(1), 10) {
            Some(v) => if v <= 0x8000_0000_0000_0000 {
                Some(-(v as int))
            } else {
                None
            },
            None => None,
        }
    } else {
        match parsed_nat(s, 10, i64::MAX as nat) {
            Some(v) => Some(v as int),
            None => None,
        }
    }
}

pub fn parse_i64(s: &str) -> (r: Option<i64>)
    ensures
        r matches Some(v) ==> parsed_i64(s@) == Some(v as int),
        r is None ==> parsed_i64(s@) is None,
{
    let chars = chars_of(s);
    if chars.len() > 0 && chars[0] == '-' {
        match read_digits(&chars, 1, 10, 0x8000_0000_0000_0000) {
            Some(v) => if v == 0x8000_0000_0000_0000 {
                Some(i64::MIN)
            } else {
                Some(-(v as i64))
            },
            None => None,
        }
    } else {
        match parse_upto(s, 10, 0x7fff_ffff_ffff_ffff) {
            Some(v) => Some(v as i64),
            None => None,
        }
    }
}

proof fn lemma_dec_digits(n: nat)
    ensures
        dec(n).len() > 0,
        digits_value(dec(n), 10) == Some(n),
        forall|i: int| 0 <= i < dec(n).len() ==> '0' <= #[trigger] dec(n)[i] <= '9',
    decreases n,
{
    if n >= 10 {
        lemma_dec_digits(n / 10);
        assert(dec(n).drop_last() =~= dec(n / 10));
    }
}

/// A number that was rendered in decimal reads back as itself.
pub proof fn law_dec_reads_back(n: nat, max: nat)
    requires
        n <= max,
    ensures
        parsed_nat(dec(n), 10, max) == Some(n),
        dec(n).len() > 0,
        forall|i: int| 0 <= i < dec(n).len() ==> '0' <= #[trigger] dec(n)[i] <= '9',
{
    lemma_dec_digits(n);
    assert('0' <= dec(n)[0] <= '9');
}

/// Division rounded to the nearest whole number, ties to even.
pub open spec fn rounded(n: nat, d: nat) -> nat
    recommends
        d > 0,
{
    let q = n / d;
    let r = n % d;
    if 2 * r < d || (2 * r == d && q % 2 == 0) {
        q
    } else {
        q + 1
    }
}

/// Ten to the power of a number of decimal places, up to two.
pub open spec fn place_value(places: nat) -> nat {
    if places == 0 {
        1
    } else if places == 1 {
        10
    } else {
        100
    }
}

/// The quotient `n / d` with a number of decimal places, up to two.
pub open spec fn fixed(n: nat, d: nat, places: nat) -> Seq<char> {
    let v = rounded(n * place_value(places), d);
    if places == 0 {
        dec(v)
    } else if places == 1 {
        dec(v / 10) + "."@ + dec(v % 10)
    } else {
        dec(v / 100) + "."@ + dec(v / 10 % 10) + dec(v % 10)
    }
}

pub fn fixed_text(n: u128, d: u64, places: u8) -> (r: String)
    requires
        d > 0,
        places <= 2,
        n * 100 <= u128::MAX,
    ensures
        r@ == fixed(n as nat, d as nat, places as nat),
{
    let scale: u128 = if places == 0 {
        1
    } else if places == 1 {
        10
    } else {
        100
    };
    let wide: u128 = n * scale;
    let d: u128 = d as u128;
    let q: u128 = wide / d;
    let rem: u128 = wide % d;
    proof {
        assert(q <= wide) by (nonlinear_arith)
            requires
                q == wide / d,
                d > 0,
        ;
    }
    let v: u128 = if 2 * rem < d || (2 * rem == d && q % 2 == 0) {
        q
    } else {
        assert(q < u128::MAX) by (nonlinear_arith)
            requires
                q == wide / d,
                rem == wide % d,
                rem > 0,
                d > 0,
                wide <= u128::MAX,
        ;
        q + 1
    };
    assert(v == rounded(n as nat * place_value(places as nat), d as nat));
    if places == 0 {
        wide_num(v)
    } else if places == 1 {
        wide_num(v / 10).concat(".").concat(wide_num(v % 10).as_str())
    } else {
        wide_num(v / 100).concat(".").concat(wide_num(v / 10 % 10).as_str()).concat(
            wide_num(v % 10).as_str(),
        )
    }
}

/// Picoseconds in a millisecond.
pub const PS_PER_MS: u64 = 1_000_000_000;

/// Picoseconds as milliseconds with some decimal places.
pub open spec fn millis(ps: u64, places: nat) -> Seq<char> {
    fixed(ps as nat, PS_PER_MS as nat, places)
}

pub fn millis_text(ps: u64, places: u8) -> (r: String)
    requires
        places <= 2,
    ensures
        r@ == millis(ps, places as nat),
{
    fixed_text(ps as u128, PS_PER_MS, places)
}

/// Whether a number that may be missing is positive.
pub open spec fn positive(n: Option<u64>) -> bool {
    match n {
        Some(v) => v > 0,
        None => false,
    }
}

pub fn is_positive(n: Option<u64>) -> (r: bool)
    ensures
        r == positive(n),
{
    match n {
        Some(v) => v > 0,
        None => false,
    }
}

pub open spec fn count_or_zero(n: Option<u64>) -> u64 {
    match n {
        Some(v) => v,
        None => 0,
    }
}

pub fn or_zero(n: Option<u64>) -> (r: u64)
    ensures
        r == count_or_zero(n),
{
    match n {
        Some(v) => v,
        None => 0,
    }
}

/// A quotient is rounded to the nearest number, and from the middle to the even one.
pub proof fn law_rounding(n: nat, d: nat)
    requires
        d > 0,
    ensures
        ({
            let v = rounded(n, d);
            &&& 2 * (v * d) <= 2 * n + d
            &&& 2 * n <= 2 * (v * d) + d
            &&& 2 * (v * d) == 2 * n + d || 2 * n == 2 * (v * d) + d ==> v % 2 == 0
        }),
{
    let q = n / d;
    let r = n % d;
    assert(n == q * d + r && r < d) by (nonlinear_arith)
        requires
            d > 0,
            q == n / d,
            r == n % d,
    ;
    assert((q + 1) * d == q * d + d) by (nonlinear_arith);
}

/// A decimal text holds the rounded number of tenths or hundredths.
pub proof fn law_fixed(n: nat, d: nat)
    ensures
        fixed(n, d, 0) == dec(rounded(n, d)),
        fixed(n, d, 1) == dec(rounded(10 * n, d) / 10) + "."@ + dec(rounded(10 * n, d) % 10),
        fixed(n, d, 2) == dec(rounded(100 * n, d) / 100) + "."@ + dec(
            rounded(100 * n, d) / 10 % 10,
        ) + dec(rounded(100 * n, d) % 10),
{
}

/// A number is read from its decimal digits, with or without a plus sign before them, and
/// nothing beyond the greatest one is read.
pub proof fn law_numbers_read_back(n: nat)
    ensures
        n <= u64::MAX ==> parsed_u64(dec(n)) == Some(n as u64),
        n > u64::MAX ==> parsed_u64(dec(n)) is None,
        n <= u16::MAX ==> parsed_u16(dec(n)) == Some(n as u16),
        n > u16::MAX ==> parsed_u16(dec(n)) is None,
        parsed_u64(Seq::empty()) is None,
{
    lemma_dec_digits(n);
}

} // verus!
