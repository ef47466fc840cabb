//! Exact non-negative decimal numbers, as read from recognised stat text.
//!
//! A value is `mantissa / 10^scale`. Percentages are stored as fractions by
//! raising the scale by two, so no precision is ever lost.

use vstd::prelude::*;
use vstd::arithmetic::div_mod::*;

verus! {

/// Ten to the power `n`.
pub open spec fn pow10(n: nat) -> nat
    decreases n,
{
    if n == 0 {
        1
    } else {
        10 * pow10((n - 1) as nat)
    }
}

pub proof fn lemma_pow10_positive(n: nat)
    ensures
        pow10(n) >= 1,
    decreases n,
{
    if n > 0 {
        lemma_pow10_positive((n - 1) as nat);
    }
}

pub proof fn lemma_pow10_adds(a: nat, b: nat)
    ensures
        pow10(a + b) == pow10(a) * pow10(b),
    decreases a,
{
    if a > 0 {
        lemma_pow10_adds((a - 1) as nat, b);
        assert(pow10(a + b) == 10 * pow10((a - 1 + b) as nat));
        let p = pow10((a - 1) as nat);
        let q = pow10(b);
        assert(pow10(a) == 10 * p);
        assert(10 * (p * q) == (10 * p) * q) by (nonlinear_arith);
    } else {
        assert(pow10(a) == 1);
        assert(a + b == b);
    }
}

pub proof fn lemma_pow10_monotone(a: nat, b: nat)
    requires
        a <= b,
    ensures
        pow10(a) <= pow10(b),
    decreases b,
{
    if a < b {
        lemma_pow10_monotone(a, (b - 1) as nat);
        lemma_pow10_positive((b - 1) as nat);
    }
}

/// `10^e` as a machine integer, for the small exponents the library needs.
pub fn ten_pow(e: u32) -> (r: u128)
    requires
        e <= 19,
    ensures
        r == pow10(e as nat),
{
    let mut r: u128 = 1;
    let mut i: u32 = 0;
    while i < e
        invariant
            i <= e <= 19,
            r == pow10(i as nat),
        decreases e - i,
    {
        proof {
            lemma_pow10_monotone(i as nat, 18);
            reveal_with_fuel(pow10, 19);
        }
        r = r * 10;
        i = i + 1;
    }
    r
}

pub open spec fn is_digit(c: char) -> bool {
    '0' <= c && c <= '9'
}

pub open spec fn digit_value(c: char) -> int {
    c as u32 - '0' as u32
}

/// The digits of `s` read as one integer, a decimal point being skipped.
pub open spec fn digits_read(s: Seq<char>) -> int
    decreases s.len(),
{
    if s.len() == 0 {
        0
    } else if s.last() == '.' {
        digits_read(s.drop_last())
    } else {
        digits_read(s.drop_last()) * 10 + digit_value(s.last())
    }
}

/// How many characters follow the decimal point (0 without one).
pub open spec fn frac_len(s: Seq<char>) -> nat
    decreases s.len(),
{
    if s.len() == 0 {
        0
    } else if s.drop_last().contains('.') {
        frac_len(s.drop_last()) + 1
    } else {
        0
    }
}

/// Digits with at most one decimal point, and at least one digit.
pub open spec fn is_number_text(s: Seq<char>) -> bool {
    &&& forall|i: int| 0 <= i < s.len() ==> is_digit(#[trigger] s[i]) || s[i] == '.'
    &&& forall|i: int, j: int| #![trigger s[i], s[j]] 0 <= i < j < s.len() && s[i] == '.' ==> s[j] != '.'
    &&& exists|i: int| 0 <= i < s.len() && is_digit(#[trigger] s[i])
}

/// The number a text denotes, when it is one and fits a `Decimal`.
pub open spec fn number_of(s: Seq<char>) -> Option<Decimal> {
    if is_number_text(s) && digits_read(s) <= u64::MAX && frac_len(s) <= u32::MAX {
        Some(Decimal { mantissa: digits_read(s) as u64, scale: frac_len(s) as u32 })
    } else {
        None
    }
}

proof fn lemma_digits_read_prefix(s: Seq<char>, j: int)
    requires
        0 <= j <= s.len(),
        forall|i: int| 0 <= i < s.len() ==> is_digit(#[trigger] s[i]) || s[i] == '.',
    ensures
        0 <= digits_read(s.subrange(0, j)) <= digits_read(s),
    decreases s.len(),
{
    if s.len() > 0 {
        let t = s.drop_last();
        if j == s.len() {
            assert(s.subrange(0, j) =~= s);
            lemma_digits_read_prefix(t, j - 1);
        } else {
            lemma_digits_read_prefix(t, j);
            assert(t.subrange(0, j) =~= s.subrange(0, j));
            lemma_digits_read_prefix(t, t.len() as int);
            assert(t.subrange(0, t.len() as int) =~= t);
        }
    } else {
        assert(s.subrange(0, j) =~= s);
    }
}

/// The value of a run of one or more digits that fits in a `u32`.
pub open spec fn digits_u32(d: Seq<char>) -> Option<u32> {
    if d.len() > 0 && (forall|i: int| 0 <= i < d.len() ==> is_digit(#[trigger] d[i]))
        && digits_read(d) <= u32::MAX {
        Some(digits_read(d) as u32)
    } else {
        None
    }
}

/// The unsigned integer a text denotes: an optional `+`, then one or more
/// digits, with a value that fits in a `u32`.
pub open spec fn unsigned_of(s: Seq<char>) -> Option<u32> {
    if s.len() > 0 && s[0] == '+' {
        digits_u32(s.drop_first())
    } else {
        digits_u32(s)
    }
}

/// Reads the unsigned integer that `cs` holds from position `start` on.
pub fn parse_unsigned(cs: &Vec<char>, start: usize) -> (r: Option<u32>)
    requires
        start <= cs@.len(),
    ensures
        r == unsigned_of(cs@.subrange(start as int, cs@.len() as int)),
{
    let ghost s = cs@.subrange(start as int, cs@.len() as int);
    let n = cs.len();
    let mut b = start;
    if b < n && cs[b] == '+' {
        b = b + 1;
        assert(s[0] == '+');
        assert(cs@.subrange(b as int, n as int) =~= s.drop_first());
    } else {
        assert(cs@.subrange(b as int, n as int) =~= s);
    }
    let ghost d = cs@.subrange(b as int, n as int);
    assert(unsigned_of(s) == digits_u32(d));
    if b == n {
        return None;
    }
    let mut value: u64 = 0;
    let mut i: usize = b;
    while i < n
        invariant
            n == cs@.len(),
            b <= i <= n,
            d == cs@.subrange(b as int, n as int),
            unsigned_of(cs@.subrange(start as int, n as int)) == digits_u32(d),
            value == digits_read(cs@.subrange(b as int, i as int)),
            value <= u32::MAX,
            forall|k: int| b <= k < i ==> is_digit(#[trigger] cs@[k]),
        decreases n - i,
    {
        let c = cs[i];
        let ghost p = cs@.subrange(b as int, i as int);
        let ghost q = cs@.subrange(b as int, i + 1);
        assert(q.drop_last() =~= p);
        if !('0' <= c && c <= '9') {
            assert(!is_digit(d[i - b]));
            return None;
        }
        let dv = (c as u32 - '0' as u32) as u64;
        value = value * 10 + dv;
        if value > u32::MAX as u64 {
            proof {
                if forall|k: int| 0 <= k < d.len() ==> is_digit(#[trigger] d[k]) {
                    lemma_digits_read_prefix(d, i + 1 - b);
                    assert(d.subrange(0, i + 1 - b) =~= q);
                }
            }
            return None;
        }
        i = i + 1;
    }
    assert(cs@.subrange(b as int, i as int) =~= d);
    Some(value as u32)
}

/// A non-negative decimal number `mantissa / 10^scale`.
#[derive(Clone, Copy, Debug)]
pub struct Decimal {
    pub mantissa: u64,
    pub scale: u32,
}

impl Decimal {
    /// The value in thousandths, truncated toward zero.
    pub open spec fn milli_spec(self) -> int {
        (self.mantissa * 1000) / (pow10(self.scale as nat) as int)
    }

    /// The value divided by one hundred.
    pub open spec fn hundredth_spec(self) -> Decimal {
        Decimal { mantissa: self.mantissa, scale: (self.scale + 2) as u32 }
    }

    /// The value in thousandths, truncated toward zero: the precision at
    /// which two stat values count as the same.
    pub fn milli(&self) -> (r: u128)
        ensures
            r == self.milli_spec(),
    {
        let m = self.mantissa as u128;
        if self.scale <= 3 {
            let f = ten_pow(3 - self.scale);
            proof {
                let s = self.scale as nat;
                let k = (3 - s) as nat;
                lemma_pow10_adds(k, s);
                assert(pow10(3) == 1000) by {
                    reveal_with_fuel(pow10, 4);
                }
                lemma_pow10_positive(s);
                lemma_pow10_monotone(k, 3);
                assert(m * 1000 == (m * f) * pow10(s)) by (nonlinear_arith)
                    requires
                        f * pow10(s) == 1000,
                ;
                lemma_div_by_multiple(m * f, pow10(s) as int);
                assert(m * f <= 0xffff_ffff_ffff_ffffu64 * 1000) by (nonlinear_arith)
                    requires
                        m <= 0xffff_ffff_ffff_ffffu64,
                        f <= 1000,
                ;
            }
            m * f
        } else {
            let e = self.scale - 3;
            proof {
                let s = self.scale as nat;
                lemma_pow10_adds(3, e as nat);
                assert(pow10(3) == 1000) by {
                    reveal_with_fuel(pow10, 4);
                }
                lemma_pow10_positive(e as nat);
                lemma_div_multiples_vanish_quotient(1000, m as int, pow10(e as nat) as int);
            }
            if e >= 20 {
                proof {
                    lemma_pow10_monotone(20, e as nat);
                    assert(pow10(20) == 100_000_000_000_000_000_000) by {
                        reveal_with_fuel(pow10, 21);
                    }
                    lemma_basic_div(m as int, pow10(e as nat) as int);
                }
                0
            } else if e == 19 {
                let f = ten_pow(19);
                m / f
            } else {
                let f = ten_pow(e);
                m / f
            }
        }
    }

    /// Reads a number written as digits with at most one decimal point.
    pub fn parse_chars(cs: &Vec<char>) -> (r: Option<Decimal>)
        ensures
            r == number_of(cs@),
    {
        let n = cs.len();
        let mut mantissa: u64 = 0;
        let mut frac: usize = 0;
        let mut has_dot = false;
        let mut dot_at: usize = 0;
        let mut any_digit = false;
        let mut i: usize = 0;
        while i < n
            invariant
                n == cs@.len(),
                i <= n,
                mantissa == digits_read(cs@.subrange(0, i as int)),
                frac == frac_len(cs@.subrange(0, i as int)),
                frac <= i,
                has_dot == cs@.subrange(0, i as int).contains('.'),
                has_dot ==> dot_at < i && cs@[dot_at as int] == '.',
                forall|k: int| 0 <= k < i ==> is_digit(#[trigger] cs@[k]) || cs@[k] == '.',
                forall|k: int, l: int| #![trigger cs@[k], cs@[l]] 0 <= k < l < i && cs@[k] == '.' ==> cs@[l] != '.',
                any_digit <==> exists|k: int| 0 <= k < i && is_digit(#[trigger] cs@[k]),
            decreases n - i,
        {
            let c = cs[i];
            let ghost p = cs@.subrange(0, i as int);
            let ghost q = cs@.subrange(0, i + 1);
            assert(q.drop_last() =~= p);
            assert(q.last() == c);
            if '0' <= c && c <= '9' {
                let d = (c as u32 - '0' as u32) as u64;
                if mantissa > (u64::MAX - d) / 10 {
                    proof {
                        assert(mantissa * 10 + d > u64::MAX) by (nonlinear_arith)
                            requires
                                mantissa > (u64::MAX - d) / 10,
                                d <= 9,
                        ;
                        if is_number_text(cs@) {
                            lemma_digits_read_prefix(cs@, i + 1);
                        }
                    }
                    return None;
                }
                assert(mantissa * 10 + d <= u64::MAX) by (nonlinear_arith)
                    requires
                        mantissa <= (u64::MAX - d) / 10,
                        d <= 9,
                ;
                mantissa = mantissa * 10 + d;
                if has_dot {
                    frac = frac + 1;
                }
                any_digit = true;
            } else if c == '.' {
                if has_dot {
                    proof {
                        assert(cs@[dot_at as int] == '.' && cs@[i as int] == '.');
                    }
                    return None;
                }
                proof {
                    assert(!p.contains('.'));
                    assert(frac_len(p) == 0);
                    assert forall|k: int| 0 <= k < i implies cs@[k] != '.' by {
                        if cs@[k] == '.' {
                            assert(p[k] == '.');
                        }
                    }
                }
                has_dot = true;
                dot_at = i;
                frac = 0;
            } else {
                proof {
                    assert(!(is_digit(cs@[i as int]) || cs@[i as int] == '.'));
                }
                return None;
            }
            proof {
                if has_dot {
                    assert(q[dot_at as int] == '.');
                    assert(q.contains('.'));
                } else {
                    assert forall|x: char| q.contains(x) implies p.contains(x) || x == c by {
                        let w = choose|w: int| 0 <= w < q.len() && q[w] == x;
                        if w < p.len() {
                            assert(p[w] == x);
                        }
                    }
                }
                assert(p.contains('.') ==> q.contains('.')) by {
                    if p.contains('.') {
                        let w = choose|w: int| 0 <= w < p.len() && p[w] == '.';
                        assert(q[w] == '.');
                    }
                }
            }
            i = i + 1;
        }
        proof {
            assert(cs@.subrange(0, n as int) =~= cs@);
        }
        if !any_digit {
            return None;
        }
        if frac > u32::MAX as usize {
            return None;
        }
        Some(Decimal { mantissa, scale: frac as u32 })
    }

    /// The same value divided by one hundred, when the scale still fits.
    pub fn hundredth(&self) -> (r: Option<Decimal>)
        ensures
            r matches Some(d) ==> d == self.hundredth_spec(),
            r is None <==> self.scale as int + 2 > u32::MAX,
    {
        if self.scale > u32::MAX - 2 {
            None
        } else {
            Some(Decimal { mantissa: self.mantissa, scale: self.scale + 2 })
        }
    }
}

} // verus!
