//! Exact non-negative fractions, for measurements that are quotients of counters.

use crate::number::{self, fixed_text, is_positive, num};
use crate::text::{
    self, before_any, chars_of, split_once, strip_prefix, text_between, text_from, CharSet,
};
use vstd::prelude::*;
use vstd::string::*;

verus! {

/// The greatest numerator of a [`Ratio`].
pub const MAX_NUMERATOR: u128 = 0x0000_ffff_ffff_ffff_ffff_ffff_ffff_ffff;

/// The most decimal places that are kept of a number in decimal notation.
pub const MAX_PLACES: usize = 15;

/// A fraction with a positive denominator.
#[derive(Debug, Clone, Copy, PartialEq, Eq)]
pub struct Ratio {
    num: u128,
    den: u64,
}

impl View for Ratio {
    type V = (nat, nat);

    /// The numerator and the denominator.
    open spec fn view(&self) -> (nat, nat) {
        (self.num(), self.den())
    }
}

/// The fraction that an optional ratio holds.
pub open spec fn ratio_opt(r: Option<Ratio>) -> Option<(nat, nat)> {
    match r {
        Some(v) => Some(v@),
        None => None,
    }
}

/// A fraction with some decimal places, or a stand-in.
pub open spec fn fixed_or(r: Option<(nat, nat)>, places: nat, other: Seq<char>) -> Seq<char> {
    match r {
        Some(v) => number::fixed(v.0, v.1, places),
        None => other,
    }
}

pub fn fixed_text_or(r: Option<Ratio>, places: u8, other: &str) -> (t: String)
    requires
        places <= 2,
    ensures
        t@ == fixed_or(ratio_opt(r), places as nat, other@),
{
    match r {
        Some(v) => v.fixed_text(places),
        None => other.to_owned(),
    }
}

/// A percentage with one decimal place and its sign, or a stand-in.
pub open spec fn percent_or(r: Option<(nat, nat)>, other: Seq<char>) -> Seq<char> {
    match r {
        Some(v) => number::fixed(v.0, v.1, 1) + "%"@,
        None => other,
    }
}

pub fn percent_text_or(r: Option<Ratio>, other: &str) -> (t: String)
    ensures
        t@ == percent_or(ratio_opt(r), other@),
{
    match r {
        Some(v) => v.fixed_text(1).concat("%"),
        None => other.to_owned(),
    }
}

/// Whether a fraction that may be missing is greater than a whole number.
pub open spec fn exceeds_whole(r: Option<(nat, nat)>, n: nat) -> bool {
    match r {
        Some(v) => v.0 > n * v.1,
        None => false,
    }
}

pub fn is_above(r: Option<Ratio>, n: u64) -> (b: bool)
    ensures
        b == exceeds_whole(ratio_opt(r), n as nat),
{
    match r {
        Some(v) => v.exceeds(n, 1),
        None => false,
    }
}

/// Comparison of `a / b` with `c / d` through their whole parts and remainders.
proof fn lemma_quotient_order(a: nat, b: nat, c: nat, d: nat)
    requires
        b > 0,
        d > 0,
    ensures
        a / b > c / d ==> a * d > c * b,
        a / b < c / d ==> a * d < c * b,
        a / b == c / d ==> (a * d > c * b <==> (a % b) * d > (c % d) * b),
{
    let q = a / b;
    let r = a % b;
    let p = c / d;
    let t = c % d;
    assert(a == b * q + r && 0 <= r < b) by (nonlinear_arith)
        requires
            q == a / b,
            r == a % b,
            b > 0,
    ;
    assert(c == d * p + t && 0 <= t < d) by (nonlinear_arith)
        requires
            p == c / d,
            t == c % d,
            d > 0,
    ;
    assert(a * d == b * d * q + r * d) by (nonlinear_arith)
        requires
            a == b * q + r,
    ;
    assert(c * b == b * d * p + t * b) by (nonlinear_arith)
        requires
            c == d * p + t,
    ;
    assert(0 <= r * d < b * d) by (nonlinear_arith)
        requires
            0 <= r < b,
            d > 0,
    ;
    assert(0 <= t * b < b * d) by (nonlinear_arith)
        requires
            0 <= t < d,
            b > 0,
    ;
    if q > p {
        assert(b * d * q >= b * d * p + b * d) by (nonlinear_arith)
            requires
                q >= p + 1,
                b > 0,
                d > 0,
        ;
    } else if q < p {
        assert(b * d * p >= b * d * q + b * d) by (nonlinear_arith)
            requires
                p >= q + 1,
                b > 0,
                d > 0,
        ;
    }
}

/// Whether `a / b` is greater than `c / d`.
fn greater(a: u128, b: u64, c: u128, d: u64) -> (r: bool)
    requires
        b > 0,
        d > 0,
    ensures
        r == (a * d > c * b),
{
    proof {
        lemma_quotient_order(a as nat, b as nat, c as nat, d as nat);
    }
    let q: u128 = a / (b as u128);
    let p: u128 = c / (d as u128);
    if q != p {
        q > p
    } else {
        let x: u128 = a % (b as u128);
        let y: u128 = c % (d as u128);
        assert(x * d <= u64::MAX * u64::MAX) by (nonlinear_arith)
            requires
                0 <= x < b <= u64::MAX,
                0 <= d <= u64::MAX,
        ;
        assert(y * b <= u64::MAX * u64::MAX) by (nonlinear_arith)
            requires
                0 <= y < d <= u64::MAX,
                0 <= b <= u64::MAX,
        ;
        assert(x * d >= 0 && y * b >= 0) by (nonlinear_arith);
        x * (d as u128) > y * (b as u128)
    }
}

/// A power of ten.
pub open spec fn pow10(k: nat) -> nat
    decreases k,
{
    if k == 0 {
        1
    } else {
        10 * pow10((k - 1) as nat)
    }
}

fn ten_to(k: usize) -> (r: u64)
    requires
        k <= MAX_PLACES,
    ensures
        r == pow10(k as nat),
        0 < r <= 1_000_000_000_000_000,
{
    let mut r: u64 = 1;
    let mut i: usize = 0;
    assert(pow10(15) == 1_000_000_000_000_000) by {
        reveal_with_fuel(pow10, 16);
    }
    while i < k
        invariant
            i <= k <= MAX_PLACES,
            r == pow10(i as nat),
            0 < r <= 1_000_000_000_000_000,
            pow10(15) == 1_000_000_000_000_000,
        decreases k - i,
    {
        proof {
            lemma_pow10_grows((i + 1) as nat, 15);
        }
        r = r * 10;
        i += 1;
    }
    r
}

proof fn lemma_pow10_grows(a: nat, b: nat)
    requires
        a <= b,
    ensures
        0 < pow10(a) <= pow10(b),
    decreases b,
{
    if a < b {
        lemma_pow10_grows(a, (b - 1) as nat);
    } else if a > 0 {
        lemma_pow10_grows((a - 1) as nat, (a - 1) as nat);
    }
}

/// A numerator, held to the greatest one.
pub open spec fn capped(v: nat) -> nat {
    if v <= MAX_NUMERATOR {
        v
    } else {
        MAX_NUMERATOR as nat
    }
}

/// The number that a run of decimal digits writes; an empty run writes zero.
pub open spec fn run_nat(s: Seq<char>) -> Option<nat> {
    if s.len() == 0 {
        Some(0)
    } else {
        number::digits_value(s, 10)
    }
}

/// The exponent behind the `e` of scientific notation.
pub open spec fn exponent_of(s: Seq<char>) -> Option<int> {
    if s.len() > 0 && s[0] == '-' {
        match number::digits_value(s.skip(1), 10) {
            Some(v) => Some(-(v as int)),
            None => None,
        }
    } else if s.len() > 0 && s[0] == '+' {
        match number::digits_value(s.skip(1), 10) {
            Some(v) => Some(v as int),
            None => None,
        }
    } else {
        match number::digits_value(s, 10) {
            Some(v) => Some(v as int),
            None => None,
        }
    }
}

/// Decimal or scientific notation, as a whole number and the power of ten that it is to be
/// taken times: digits with an optional point among them, then an optional exponent.
pub open spec fn notation_of(s: Seq<char>) -> Option<(nat, int)> {
    let mark = CharSet::Two('e', 'E');
    let mantissa = text::first_piece(s, mark);
    let tail = s.skip(text::next_member(s, mark, 0));
    let (whole, places) = match text::split_at_first(mantissa, "."@) {
        Some((a, b)) => (a, b),
        None => (mantissa, Seq::empty()),
    };
    let exponent = if tail.len() == 0 {
        Some(0int)
    } else {
        exponent_of(tail.skip(1))
    };
    match (run_nat(whole + places), exponent) {
        (Some(m), Some(e)) => if (whole + places).len() > 0 {
            Some((m, e - places.len()))
        } else {
            None
        },
        _ => None,
    }
}

/// `m` times a power of ten, as a fraction: cut to fifteen decimal places, and with its
/// numerator held to the greatest one.
pub open spec fn scaled(m: nat, x: int) -> (nat, nat) {
    if x >= 0 {
        (capped(m * pow10(x as nat)), 1)
    } else if -x <= MAX_PLACES {
        (capped(m), pow10((-x) as nat))
    } else {
        (capped(m / pow10((-x - MAX_PLACES) as nat)), pow10(MAX_PLACES as nat))
    }
}

/// The number that decimal or scientific notation writes, as a fraction, after an optional
/// plus sign.
pub open spec fn decimal_of(s: Seq<char>) -> Option<(nat, nat)> {
    let unsigned = match text::without_prefix(s, "+"@) {
        Some(t) => t,
        None => s,
    };
    match notation_of(unsigned) {
        Some((m, x)) => Some(scaled(m, x)),
        None => None,
    }
}

/// One more digit.
proof fn lemma_run_push(s: Seq<char>)
    requires
        s.len() > 0,
    ensures
        run_nat(s) == match (run_nat(s.drop_last()), number::digit_value(s.last(), 10)) {
            (Some(v), Some(d)) => Some((v * 10 + d) as nat),
            _ => None,
        },
{
    if s.len() == 1 {
        assert(s[0] == s.last());
    }
}

/// A run of digits is one up to any place.
proof fn lemma_run_take(s: Seq<char>, i: int)
    requires
        0 <= i <= s.len(),
        run_nat(s) is Some,
    ensures
        run_nat(s.take(i)) is Some,
        run_nat(s.take(i))->0 == run_nat(s)->0 / pow10((s.len() - i) as nat),
        run_nat(s)->0 < pow10(s.len()),
    decreases s.len(),
{
    if s.len() == 0 {
        assert(s.take(i) =~= s);
        assert(0nat / 1nat == 0nat);
    } else {
        lemma_run_push(s);
        let init = s.drop_last();
        let v = run_nat(init)->0;
        let d = number::digit_value(s.last(), 10)->0;
        let m = run_nat(s)->0;
        assert(m == v * 10 + d && d < 10);
        if i == s.len() {
            lemma_run_take(init, i - 1);
            assert(s.take(i) =~= s);
            assert(pow10(0) == 1);
            assert(m / 1 == m);
        } else {
            lemma_run_take(init, i);
            assert(init.take(i) =~= s.take(i));
            let j = (init.len() - i) as nat;
            lemma_pow10_grows(j, j);
            vstd::arithmetic::div_mod::lemma_div_denominator(m as int, 10, pow10(j) as int);
            assert(m / 10 == v);
            assert(pow10(j + 1) == 10 * pow10(j));
        }
        assert(pow10(s.len()) == 10 * pow10(init.len()));
    }
}

/// Reads the digits of `chars[from..to]`, with the number that they write held to the greatest
/// numerator.
fn read_capped(chars: &Vec<char>, from: usize, to: usize) -> (r: Option<u128>)
    requires
        from <= to <= chars@.len(),
    ensures
        match run_nat(chars@.subrange(from as int, to as int)) {
            Some(v) => r == Some(capped(v) as u128),
            None => r is None,
        },
{
    let ghost all = chars@.subrange(from as int, to as int);
    let mut acc: u128 = 0;
    let mut i: usize = from;
    while i < to
        invariant
            from <= i <= to <= chars@.len(),
            all == chars@.subrange(from as int, to as int),
            run_nat(all.take(i - from)) is Some,
            acc == capped(run_nat(all.take(i - from))->0),
        decreases to - i,
    {
        let c = chars[i];
        proof {
            let next = all.take(i - from + 1);
            lemma_run_push(next);
            assert(next.drop_last() =~= all.take(i - from));
            assert(next.last() == c);
        }
        if !('0' <= c && c <= '9') {
            proof {
                if run_nat(all) is Some {
                    lemma_run_take(all, i - from + 1);
                }
            }
            return None;
        }
        let wide: u128 = acc * 10 + ((c as u32 - '0' as u32) as u128);
        acc = if wide <= MAX_NUMERATOR {
            wide
        } else {
            MAX_NUMERATOR
        };
        i += 1;
    }
    assert(all.take(to - from) =~= all);
    Some(acc)
}

/// More powers of ten never make a number smaller.
proof fn lemma_scale_grows(m: nat, a: nat, b: nat)
    requires
        a <= b,
    ensures
        m * pow10(a) <= m * pow10(b),
{
    lemma_pow10_grows(a, b);
    assert(m * pow10(a) <= m * pow10(b)) by (nonlinear_arith)
        requires
            pow10(a) <= pow10(b),
    ;
}

/// Beyond some power of ten, which one it is does not matter.
proof fn lemma_scaled_far(m: nat, len: nat, a: int, b: int)
    requires
        m < pow10(len),
        (a >= 34 && b >= 34) || (-a - MAX_PLACES >= len && -b - MAX_PLACES >= len && a < -MAX_PLACES
            && b < -MAX_PLACES),
    ensures
        scaled(m, a) == scaled(m, b),
{
    if a >= 34 {
        if m == 0 {
            assert(m * pow10(a as nat) == 0 && m * pow10(b as nat) == 0) by (nonlinear_arith)
                requires
                    m == 0,
            ;
        } else {
            assert(pow10(34) > MAX_NUMERATOR) by {
                reveal_with_fuel(pow10, 35);
            }
            lemma_scale_grows(m, 34, a as nat);
            lemma_scale_grows(m, 34, b as nat);
            assert(m * pow10(34) >= pow10(34)) by (nonlinear_arith)
                requires
                    m >= 1,
            ;
        }
    } else {
        lemma_pow10_grows(len, (-a - MAX_PLACES) as nat);
        lemma_pow10_grows(len, (-b - MAX_PLACES) as nat);
        vstd::arithmetic::div_mod::lemma_basic_div(m as int, pow10((-a - MAX_PLACES) as nat) as int);
        vstd::arithmetic::div_mod::lemma_basic_div(m as int, pow10((-b - MAX_PLACES) as nat) as int);
    }
}

/// The number in a run of digits times a power of ten.
fn scale(digits: &Vec<char>, x: i128) -> (r: Option<(u128, u64)>)
    requires
        x > i128::MIN,
    ensures
        match run_nat(digits@) {
            Some(m) => r matches Some(v) && (v.0 as nat, v.1 as nat) == scaled(m, x as int) && v.0
                <= MAX_NUMERATOR && v.1 > 0,
            None => r is None,
        },
{
    let n: usize = digits.len();
    assert(digits@.subrange(0, n as int) =~= digits@);
    let value: u128 = match read_capped(digits, 0, n) {
        Some(v) => v,
        None => {
            return None;
        },
    };
    let ghost m = run_nat(digits@)->0;
    if x >= 0 {
        let mut acc: u128 = value;
        let mut j: i128 = 0;
        assert(pow10(0) == 1);
        assert(m * 1 == m);
        while j < x && acc > 0 && acc < MAX_NUMERATOR
            invariant
                0 <= j <= x,
                acc == capped(m * pow10(j as nat)),
            decreases x - j,
        {
            assert(m * pow10((j + 1) as nat) == (m * pow10(j as nat)) * 10) by {
                assert(pow10((j + 1) as nat) == 10 * pow10(j as nat));
                assert(m * (10 * pow10(j as nat)) == (m * pow10(j as nat)) * 10)
                    by (nonlinear_arith);
            }
            let wide: u128 = acc * 10;
            acc = if wide <= MAX_NUMERATOR {
                wide
            } else {
                MAX_NUMERATOR
            };
            j += 1;
        }
        proof {
            lemma_scale_grows(m, j as nat, x as nat);
            lemma_pow10_grows(j as nat, j as nat);
            if acc == 0 {
                assert(m == 0) by (nonlinear_arith)
                    requires
                        m * pow10(j as nat) == 0,
                        pow10(j as nat) > 0,
                ;
                assert(m * pow10(x as nat) == 0) by (nonlinear_arith)
                    requires
                        m == 0,
                ;
            }
        }
        return Some((acc, 1));
    }
    let down: u128 = (-x) as u128;
    if down <= MAX_PLACES as u128 {
        return Some((value, ten_to(down as usize)));
    }
    let dropped: u128 = down - (MAX_PLACES as u128);
    let scale = ten_to(MAX_PLACES);
    if dropped >= n as u128 {
        proof {
            lemma_run_take(digits@, 0);
            lemma_pow10_grows(n as nat, dropped as nat);
            vstd::arithmetic::div_mod::lemma_basic_div(m as int, pow10(dropped as nat) as int);
        }
        Some((0, scale))
    } else {
        let keep: usize = n - (dropped as usize);
        assert(digits@.subrange(0, keep as int) =~= digits@.take(keep as int));
        proof {
            lemma_run_take(digits@, keep as int);
        }
        match read_capped(digits, 0, keep) {
            Some(v) => Some((v, scale)),
            None => None,
        }
    }
}

/// Reads an exponent: whether it is negative, and how great it is.
fn read_exponent(chars: &Vec<char>) -> (r: Option<(bool, u128)>)
    ensures
        match exponent_of(chars@) {
            Some(e) => r matches Some(v) && v.1 == capped(
                if e < 0 {
                    (-e) as nat
                } else {
                    e as nat
                },
            ) && (v.0 ==> e <= 0) && (!v.0 ==> e >= 0),
            None => r is None,
        },
{
    let n: usize = chars.len();
    if n == 0 {
        return None;
    }
    let signed = chars[0] == '-' || chars[0] == '+';
    let from: usize = if signed {
        1
    } else {
        0
    };
    if from == n {
        return None;
    }
    assert(chars@.subrange(from as int, n as int) =~= if signed {
        chars@.skip(1)
    } else {
        chars@
    });
    match read_capped(chars, from, n) {
        Some(v) => Some((chars[0] == '-', v)),
        None => None,
    }
}

impl Ratio {
    #[verifier::type_invariant]
    spec fn valid(self) -> bool {
        self.den > 0 && self.num <= MAX_NUMERATOR
    }

    pub closed spec fn num(self) -> nat {
        self.num as nat
    }

    pub closed spec fn den(self) -> nat {
        self.den as nat
    }

    /// The fraction `num / den`, for a positive denominator.
    pub fn new(num: u64, den: u64) -> (r: Option<Ratio>)
        ensures
            r is Some <==> den > 0,
            r matches Some(v) ==> v.num() == num && v.den() == den,
    {
        if den > 0 {
            Some(Ratio { num: num as u128, den })
        } else {
            None
        }
    }

    /// A whole number.
    pub fn whole(n: u64) -> (r: Ratio)
        ensures
            r.num() == n,
            r.den() == 1,
    {
        Ratio { num: n as u128, den: 1 }
    }

    /// `part / total` in percent, for a positive total.
    pub fn percent(part: u64, total: u64) -> (r: Option<Ratio>)
        ensures
            r is Some <==> total > 0,
            r matches Some(v) ==> v.num() == part * 100 && v.den() == total,
    {
        if total > 0 {
            Some(Ratio { num: (part as u128) * 100, den: total })
        } else {
            None
        }
    }

    /// The fraction times a whole number, with its numerator held to the greatest one.
    pub fn times(self, k: u64) -> (r: Ratio)
        ensures
            r.num() == capped(self.num() * k as nat),
            r.den() == self.den(),
    {
        proof {
            use_type_invariant(&self);
            assert(self.num() * k >= 0) by (nonlinear_arith)
                requires
                    self.num() >= 0,
                    k >= 0,
            ;
        }
        match self.num.checked_mul(k as u128) {
            Some(n) => if n <= MAX_NUMERATOR {
                Ratio { num: n, den: self.den }
            } else {
                Ratio { num: MAX_NUMERATOR, den: self.den }
            },
            None => Ratio { num: MAX_NUMERATOR, den: self.den },
        }
    }

    /// Reads a number in decimal or scientific notation. What has no fraction of its own, a
    /// minus sign, an infinity or no number, is not read.
    pub fn parse(s: &str) -> (r: Option<Ratio>)
        ensures
            ratio_opt(r) == decimal_of(s@),
    {
        let unsigned = match strip_prefix(s, "+") {
            Some(t) => t,
            None => s.to_owned(),
        };
        let mark = CharSet::Two('e', 'E');
        let mantissa = before_any(&unsigned, mark);
        let tail = chars_of(&text_from(&unsigned, mark));
        let (whole, places) = match split_once(&mantissa, ".") {
            Some((a, b)) => (a, b),
            None => {
                let empty = String::new();
                assert(empty@ =~= Seq::<char>::empty());
                (mantissa, empty)
            },
        };
        let k: usize = chars_of(&places).len();
        let digits = chars_of(&whole.concat(places.as_str()));
        if digits.len() == 0 {
            return None;
        }
        let (down, size): (bool, u128) = if tail.len() == 0 {
            (false, 0)
        } else {
            let exponent = chars_of(&text_between(&tail, 1, tail.len()));
            assert(exponent@ =~= tail@.skip(1));
            match read_exponent(&exponent) {
                Some(v) => v,
                None => {
                    return None;
                },
            }
        };
        let x: i128 = if down {
            -(size as i128) - (k as i128)
        } else {
            (size as i128) - (k as i128)
        };
        proof {
            if run_nat(digits@) is Some {
                lemma_run_take(digits@, 0);
                let (m, exact) = notation_of(unsigned@)->0;
                if size == MAX_NUMERATOR {
                    lemma_scaled_far(m, digits@.len(), exact, x as int);
                }
            }
        }
        match scale(&digits, x) {
            Some((num, den)) => Some(Ratio { num, den }),
            None => None,
        }
    }

    /// The fraction divided by a positive number, while its denominator stays in range.
    pub fn divided_by(self, k: u64) -> (r: Option<Ratio>)
        requires
            k > 0,
        ensures
            r is Some <==> self.den() * k <= u64::MAX,
            r matches Some(v) ==> v.num() == self.num() && v.den() == self.den() * k,
    {
        proof {
            use_type_invariant(&self);
            assert(self.den * k > 0) by (nonlinear_arith)
                requires
                    self.den > 0,
                    k > 0,
            ;
        }
        match self.den.checked_mul(k) {
            Some(d) => Some(Ratio { num: self.num, den: d }),
            None => None,
        }
    }

    /// The numerator and the denominator.
    pub fn parts(self) -> (r: (u128, u64))
        ensures
            r.0 == self.num(),
            r.1 == self.den(),
            r.1 > 0,
    {
        proof {
            use_type_invariant(&self);
        }
        (self.num, self.den)
    }

    /// Whether the fraction is greater than `a / b`.
    pub fn exceeds(self, a: u64, b: u64) -> (r: bool)
        requires
            b > 0,
        ensures
            r == (self.num() * b > a * self.den()),
    {
        proof {
            use_type_invariant(&self);
        }
        greater(self.num, self.den, a as u128, b)
    }

    /// Whether the fraction is less than `a / b`.
    pub fn below(self, a: u64, b: u64) -> (r: bool)
        requires
            b > 0,
        ensures
            r == (self.num() * b < a * self.den()),
    {
        proof {
            use_type_invariant(&self);
        }
        greater(a as u128, b, self.num, self.den)
    }

    /// Whether the fraction is greater than four fifths of another.
    pub fn exceeds_four_fifths_of(self, other: Ratio) -> (r: bool)
        ensures
            r == ((self.num() * 5) * other.den() > (other.num() * 4) * self.den()),
    {
        proof {
            use_type_invariant(&self);
            use_type_invariant(&other);
        }
        greater(self.num * 5, self.den, other.num * 4, other.den)
    }

    /// Whether the fraction is greater than zero.
    pub fn is_positive(self) -> (r: bool)
        ensures
            r == (self.num() > 0),
    {
        self.num > 0
    }

    /// The fraction with up to two decimal places.
    pub fn fixed_text(self, places: u8) -> (r: String)
        requires
            places <= 2,
        ensures
            r@ == number::fixed(self.num(), self.den(), places as nat),
    {
        proof {
            use_type_invariant(&self);
        }
        fixed_text(self.num, self.den, places)
    }

    /// The fraction as a percentage with one decimal place.
    pub fn percent_text(self) -> (r: String)
        ensures
            r@ == number::fixed(self.num() * 100, self.den(), 1),
    {
        proof {
            use_type_invariant(&self);
        }
        fixed_text(self.num * 100, self.den, 1)
    }
}

/// Whether a text is made of decimal digits.
pub open spec fn is_digits(s: Seq<char>) -> bool {
    forall|i: int| 0 <= i < s.len() ==> '0' <= #[trigger] s[i] <= '9'
}

proof fn lemma_no_mark(s: Seq<char>, i: int)
    requires
        0 <= i <= s.len(),
        forall|k: int| 0 <= k < s.len() ==> #[trigger] s[k] != 'e' && s[k] != 'E',
    ensures
        text::next_member(s, CharSet::Two('e', 'E'), i) == s.len(),
    decreases s.len() - i,
{
    if i < s.len() {
        assert(s[i] != 'e' && s[i] != 'E');
        lemma_no_mark(s, i + 1);
    }
}

proof fn lemma_mark_at(s: Seq<char>, at: int, i: int)
    requires
        0 <= i <= at < s.len(),
        s[at] == 'e' || s[at] == 'E',
        forall|k: int| 0 <= k < at ==> #[trigger] s[k] != 'e' && s[k] != 'E',
    ensures
        text::next_member(s, CharSet::Two('e', 'E'), i) == at,
    decreases at - i,
{
    if i < at {
        assert(s[i] != 'e' && s[i] != 'E');
        lemma_mark_at(s, at, i + 1);
    }
}

/// Digits with a point among them write those digits over as many tens as stand behind the
/// point, up to fifteen.
pub proof fn law_decimals(whole: Seq<char>, places: Seq<char>)
    requires
        is_digits(whole),
        is_digits(places),
        whole.len() + places.len() > 0,
        places.len() <= 15,
        number::digits_value(whole + places, 10) is Some,
    ensures
        ({
            let n = number::digits_value(whole + places, 10)->0;
            decimal_of(whole + seq!['.'] + places) == Some(
                (
                    if n <= 0xffff_ffff_ffff_ffff_ffff_ffff_ffff {
                        n
                    } else {
                        0xffff_ffff_ffff_ffff_ffff_ffff_ffff
                    },
                    pow10(places.len()),
                ),
            )
        }),
{
    reveal_strlit("+");
    reveal_strlit(".");
    let s = whole + seq!['.'] + places;
    let w = whole.len() as int;
    assert forall|k: int| 0 <= k < s.len() implies #[trigger] s[k] != 'e' && s[k] != 'E' && s[k]
        != '+' && (k != w ==> s[k] != '.') by {
        if k < w {
            assert(s[k] == whole[k]);
        } else if k > w {
            assert(s[k] == places[k - w - 1]);
        }
    }
    assert(s.subrange(0, 1)[0] == s[0]);
    assert("+"@[0] == '+');
    lemma_no_mark(s, 0);
    assert(s.take(s.len() as int) =~= s);
    assert(s.subrange(w, w + 1) =~= "."@);
    assert forall|j: int| 0 <= j < w implies !text::occurs_at(s, "."@, j) by {
        if text::occurs_at(s, "."@, j) {
            assert(s.subrange(j, j + 1)[0] == s[j]);
            assert("."@[0] == '.');
        }
    }
    text::lemma_found_at(s, "."@, w);
    assert(s.take(w) =~= whole);
    assert(s.skip(w + 1) =~= places);
    assert(pow10(0) == 1);
    let n = number::digits_value(whole + places, 10)->0;
    assert(n * 1 == n);
}

/// An exponent moves the point: to the right without a sign, to the left with a minus.
pub proof fn law_exponents(n: nat, k: nat)
    requires
        k <= 15,
        n * pow10(k) <= MAX_NUMERATOR,
    ensures
        decimal_of(number::dec(n) + seq!['e'] + number::dec(k)) == Some((n * pow10(k), 1nat)),
        decimal_of(number::dec(n) + seq!['e', '-'] + number::dec(k)) == Some((n, pow10(k))),
{
    reveal_strlit("+");
    reveal_strlit(".");
    let m = number::dec(n);
    let e = number::dec(k);
    number::law_dec_reads_back(n, n);
    number::law_dec_reads_back(k, k);
    lemma_digits_of(n);
    lemma_digits_of(k);
    lemma_pow10_grows(0, k);
    assert(n <= n * pow10(k)) by (nonlinear_arith)
        requires
            pow10(k) >= 1,
    ;
    assert(m.len() > 0 && '0' <= m[0] <= '9' && '0' <= e[0] <= '9');
    assert forall|j: int| 0 <= j implies !text::occurs_at(m, "."@, j) by {
        if text::occurs_at(m, "."@, j) {
            assert(m.subrange(j, j + 1)[0] == m[j]);
            assert("."@[0] == '.');
        }
    }
    text::lemma_find_from(m, "."@, 0);
    assert(m + Seq::<char>::empty() =~= m);
    assert("+"@[0] == '+');
    let s = m + seq!['e'] + e;
    assert forall|i: int| 0 <= i < m.len() implies #[trigger] s[i] != 'e' && s[i] != 'E' by {
        assert(s[i] == m[i]);
    }
    assert(s[m.len() as int] == 'e');
    lemma_mark_at(s, m.len() as int, 0);
    assert(s.take(m.len() as int) =~= m);
    assert(s.skip(m.len() as int).skip(1) =~= e);
    assert(s.subrange(0, 1)[0] == m[0]);
    let t = m + seq!['e', '-'] + e;
    assert forall|i: int| 0 <= i < m.len() implies #[trigger] t[i] != 'e' && t[i] != 'E' by {
        assert(t[i] == m[i]);
    }
    assert(t[m.len() as int] == 'e');
    lemma_mark_at(t, m.len() as int, 0);
    assert(t.take(m.len() as int) =~= m);
    assert(t.skip(m.len() as int).skip(1) =~= seq!['-'] + e);
    assert((seq!['-'] + e).skip(1) =~= e);
    assert(t.subrange(0, 1)[0] == m[0]);
    if k == 0 {
        assert(pow10(0) == 1);
        assert(n * 1 == n);
    }
}

proof fn lemma_digits_of(n: nat)
    ensures
        number::digits_value(number::dec(n), 10) == Some(n),
{
    number::law_dec_reads_back(n, n);
    assert(number::dec(n)[0] != '+');
}

} // verus!
