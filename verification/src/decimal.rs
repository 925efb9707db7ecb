//! Reading decimal numbers from text into fixed-point numbers.
//!
//! A number is an optional sign, digits with an optional point, or a point
//! followed by digits, and an optional exponent: `12`, `-0.5`, `.25`,
//! `3.`, `1.5e-3`. Of the digits of the mantissa the first eighteen
//! significant ones count; what a number holds beyond `2^-32` is dropped.

use vstd::prelude::*;
use crate::fixed::Fixed;

verus! {

/// Below this bound a mantissa takes one more digit: `10^17`.
pub const DIGIT_CAP: u64 = 100_000_000_000_000_000;

/// The largest exponent that is told apart: larger ones count as this one.
pub const EXPONENT_CAP: u64 = 10_000;

/// Whether the byte is an ASCII digit.
pub open spec fn spec_is_digit(b: u8) -> bool {
    48 <= b <= 57
}

#[verifier::when_used_as_spec(spec_is_digit)]
pub fn is_digit(b: u8) -> (r: bool)
    ensures
        r == spec_is_digit(b),
{
    48 <= b && b <= 57
}

/// Whether the byte is a space or a tab.
pub open spec fn spec_is_blank(b: u8) -> bool {
    b == 32 || b == 9
}

#[verifier::when_used_as_spec(spec_is_blank)]
pub fn is_blank(b: u8) -> (r: bool)
    ensures
        r == spec_is_blank(b),
{
    b == 32 || b == 9
}

/// Whether the byte is a space, a tab, a carriage return or a line feed.
pub open spec fn spec_is_white(b: u8) -> bool {
    b == 32 || b == 9 || b == 13 || b == 10
}

#[verifier::when_used_as_spec(spec_is_white)]
pub fn is_white(b: u8) -> (r: bool)
    ensures
        r == spec_is_white(b),
{
    b == 32 || b == 9 || b == 13 || b == 10
}

/// The first position from `i` on that holds no blank.
pub open spec fn spec_blanks_end(s: Seq<u8>, i: int) -> int
    decreases s.len() - i,
{
    if 0 <= i < s.len() && spec_is_blank(s[i]) {
        spec_blanks_end(s, i + 1)
    } else {
        i
    }
}

/// Finds the first position from `i` on that holds no blank.
pub fn blanks_end(s: &[u8], i: usize) -> (j: usize)
    requires
        i <= s.len(),
    ensures
        j == spec_blanks_end(s@, i as int),
        i <= j <= s.len(),
{
    let mut j: usize = i;
    while j < s.len() && is_blank(s[j])
        invariant
            i <= j <= s.len(),
            spec_blanks_end(s@, j as int) == spec_blanks_end(s@, i as int),
        decreases s.len() - j,
    {
        j = j + 1;
    }
    j
}

/// The first position from `i` on that holds no white space.
pub open spec fn spec_whites_end(s: Seq<u8>, i: int) -> int
    decreases s.len() - i,
{
    if 0 <= i < s.len() && spec_is_white(s[i]) {
        spec_whites_end(s, i + 1)
    } else {
        i
    }
}

/// Finds the first position from `i` on that holds no white space.
pub fn whites_end(s: &[u8], i: usize) -> (j: usize)
    requires
        i <= s.len(),
    ensures
        j == spec_whites_end(s@, i as int),
        i <= j <= s.len(),
{
    let mut j: usize = i;
    while j < s.len() && is_white(s[j])
        invariant
            i <= j <= s.len(),
            spec_whites_end(s@, j as int) == spec_whites_end(s@, i as int),
        decreases s.len() - j,
    {
        j = j + 1;
    }
    j
}

/// What a run of digits adds to a number: where the run ends, the number
/// with the digits appended, and how many of them were appended. A number
/// that has reached `DIGIT_CAP` takes no more digits.
#[derive(Clone, Copy, Debug, PartialEq, Eq, Structural)]
pub struct Digits {
    pub end: usize,
    pub value: u64,
    pub taken: usize,
}

/// Reads the run of digits that starts at `i`, appending to `value`.
pub open spec fn spec_read_digits(s: Seq<u8>, i: int, value: u64, taken: usize) -> Digits
    decreases s.len() - i,
{
    if 0 <= i < s.len() && spec_is_digit(s[i]) {
        if value < DIGIT_CAP {
            spec_read_digits(s, i + 1, (value * 10 + (s[i] - 48)) as u64, (taken + 1) as usize)
        } else {
            spec_read_digits(s, i + 1, value, taken)
        }
    } else {
        Digits { end: i as usize, value, taken }
    }
}

/// Reads the run of digits that starts at `i`, appending to `value`.
pub fn read_digits(s: &[u8], i: usize, value: u64, taken: usize) -> (d: Digits)
    requires
        i <= s.len(),
        value < 10 * DIGIT_CAP,
        taken <= i,
    ensures
        d == spec_read_digits(s@, i as int, value, taken),
        i <= d.end <= s.len(),
        d.value < 10 * DIGIT_CAP,
        value <= d.value,
        taken <= d.taken <= taken + (d.end - i),
        d.end < s.len() ==> !spec_is_digit(s@[d.end as int]),
{
    let mut j: usize = i;
    let mut v: u64 = value;
    let mut t: usize = taken;
    while j < s.len() && is_digit(s[j])
        invariant
            i <= j <= s.len(),
            v < 10 * DIGIT_CAP,
            value <= v,
            taken <= t <= taken + (j - i),
            taken <= i,
            spec_read_digits(s@, j as int, v, t) == spec_read_digits(s@, i as int, value, taken),
        decreases s.len() - j,
    {
        if v < DIGIT_CAP {
            v = v * 10 + (s[j] - 48) as u64;
            t = t + 1;
        }
        j = j + 1;
    }
    Digits { end: j, value: v, taken: t }
}

/// Ten to the power `n`.
pub open spec fn pow10(n: nat) -> nat
    decreases n,
{
    if n == 0 {
        1
    } else {
        10 * pow10((n - 1) as nat)
    }
}

/// Powers of ten are positive and grow.
pub proof fn lemma_pow10_grows(a: nat, b: nat)
    requires
        a <= b,
    ensures
        1 <= pow10(a) <= pow10(b),
    decreases b,
{
    if b == 0 {
    } else if a == b {
        lemma_pow10_grows(0, (b - 1) as nat);
    } else {
        lemma_pow10_grows(a, (b - 1) as nat);
    }
}

/// The magnitude `m * 10^e` as the raw value of a fixed-point number:
/// multiplied by `2^32`, rounded down, and capped at the largest raw value.
pub open spec fn spec_scaled(m: u64, e: int) -> i64 {
    let exact: int = if e >= 0 {
        m * pow10(e as nat) * 0x1_0000_0000
    } else {
        (m * 0x1_0000_0000) / (pow10((-e) as nat) as int)
    };
    if exact > i64::MAX {
        i64::MAX
    } else {
        exact as i64
    }
}

/// Computes the raw value of the magnitude `m * 10^e`.
pub fn scaled(m: u64, e: i128) -> (r: i64)
    requires
        m < 10 * DIGIT_CAP,
        -0x4000_0000_0000_0000_0000 <= e <= 0x4000_0000_0000_0000_0000,
    ensures
        r == spec_scaled(m, e as int),
        0 <= r,
{
    if m == 0 {
        proof {
            if e >= 0 {
                assert(0 * pow10(e as nat) * 0x1_0000_0000 == 0) by (nonlinear_arith);
            } else {
                lemma_pow10_grows(0, (-e) as nat);
                vstd::arithmetic::div_mod::lemma_div_basics_1(pow10((-e) as nat) as int);
            }
        }
        return 0;
    }
    if e >= 0 {
        let mut v: u128 = m as u128;
        let mut t: i128 = 0;
        assert(pow10(0) == 1);
        assert(m * pow10(0) == m) by (nonlinear_arith)
            requires
                pow10(0) == 1,
        ;
        while t < e
            invariant
                0 <= t <= e,
                1 <= m,
                v == m * pow10(t as nat),
                v < 0x1_0000_0000_0000_0000_0000,
            decreases e - t,
        {
            if v >= 0x8000_0000 {
                proof {
                    lemma_pow10_grows(t as nat, e as nat);
                    assert(m * pow10(e as nat) >= m * pow10(t as nat)) by (nonlinear_arith)
                        requires
                            pow10(e as nat) >= pow10(t as nat),
                            m >= 1,
                    ;
                }
                return i64::MAX;
            }
            proof {
                assert(m * pow10((t + 1) as nat) == 10 * (m * pow10(t as nat))) by (nonlinear_arith)
                    requires
                        pow10((t + 1) as nat) == 10 * pow10(t as nat),
                ;
            }
            v = v * 10;
            t = t + 1;
        }
        if v >= 0x8000_0000 {
            i64::MAX
        } else {
            (v * 0x1_0000_0000) as i64
        }
    } else {
        let k: i128 = -e;
        let whole: u128 = (m as u128) * 0x1_0000_0000;
        let mut q: u128 = whole;
        let mut t: i128 = 0;
        assert(pow10(0) == 1);
        assert((whole as int) / (pow10(0) as int) == whole);
        while t < k
            invariant
                0 <= t <= k,
                k == -e,
                whole == m * 0x1_0000_0000,
                q == (whole as int) / (pow10(t as nat) as int),
                q <= whole,
            decreases k - t,
        {
            proof {
                lemma_pow10_grows(t as nat, (t + 1) as nat);
                lemma_pow10_grows(0, t as nat);
                vstd::arithmetic::div_mod::lemma_div_denominator(
                    whole as int,
                    pow10(t as nat) as int,
                    10,
                );
                assert(pow10(t as nat) * 10 == pow10((t + 1) as nat));
            }
            if q == 0 {
                proof {
                    lemma_pow10_grows(t as nat, k as nat);
                    lemma_zero_quotient_stays(whole as int, pow10(t as nat) as int, pow10(
                        k as nat,
                    ) as int);
                }
                return 0;
            }
            q = q / 10;
            t = t + 1;
        }
        if q > i64::MAX as u128 {
            i64::MAX
        } else {
            q as i64
        }
    }
}

/// A quotient that is zero stays zero under a larger divisor.
pub proof fn lemma_zero_quotient_stays(x: int, a: int, b: int)
    requires
        0 <= x,
        0 < a <= b,
        x / a == 0,
    ensures
        x / b == 0,
{
    vstd::arithmetic::div_mod::lemma_fundamental_div_mod(x, a);
    vstd::arithmetic::div_mod::lemma_mod_bound(x, a);
    assert(x < a) by (nonlinear_arith)
        requires
            x == a * (x / a) + x % a,
            x / a == 0,
            0 <= x % a < a,
    ;
    vstd::arithmetic::div_mod::lemma_small_div_converse(x, b);
    vstd::arithmetic::div_mod::lemma_basic_div(x, b);
}

/// A number read from text: its value and where it ends.
#[derive(Clone, Copy, Debug, PartialEq, Eq, Structural)]
pub struct Number {
    pub value: Fixed,
    pub end: usize,
}

/// Whether a minus sign stands at `i`.
pub open spec fn spec_minus_at(s: Seq<u8>, i: int) -> bool {
    0 <= i < s.len() && s[i] == 45
}

/// The position after the sign at `i`, if there is one.
pub open spec fn spec_sign_end(s: Seq<u8>, i: int) -> int {
    if 0 <= i < s.len() && (s[i] == 43 || s[i] == 45) {
        i + 1
    } else {
        i
    }
}

/// The number with the given sign, mantissa and decimal exponent.
pub open spec fn spec_signed(negative: bool, m: u64, e: int) -> Fixed {
    if negative {
        Fixed { raw: (-spec_scaled(m, e)) as i64 }
    } else {
        Fixed { raw: spec_scaled(m, e) }
    }
}

/// The exponent that follows a mantissa which ends at `p`: nothing where
/// no `e` stands at `p`; an error where no digit follows the `e` and its
/// sign; and else the exponent, capped at `EXPONENT_CAP`, with the position
/// after it.
pub open spec fn spec_read_exponent(s: Seq<u8>, p: int) -> Option<Option<(int, usize)>> {
    if 0 <= p < s.len() && (s[p] == 101 || s[p] == 69) {
        let q = spec_sign_end(s, p + 1);
        let digits = spec_read_digits(s, q, 0, 0);
        if digits.end == q {
            None
        } else {
            let size: int = if digits.value > EXPONENT_CAP {
                EXPONENT_CAP as int
            } else {
                digits.value as int
            };
            Some(Some((if spec_minus_at(s, p + 1) { -size } else { size }, digits.end)))
        }
    } else {
        Some(None)
    }
}

/// The number that starts at `i`, if one does.
pub open spec fn spec_read_number(s: Seq<u8>, i: int) -> Option<Number> {
    let a = spec_sign_end(s, i);
    let whole = spec_read_digits(s, a, 0, 0);
    let point = whole.end < s.len() && s[whole.end as int] == 46;
    let fraction = if point {
        spec_read_digits(s, whole.end + 1, whole.value, 0)
    } else {
        Digits { end: whole.end, value: whole.value, taken: 0 }
    };
    let no_whole = whole.end == a;
    let no_fraction = !point || fraction.end == whole.end + 1;
    if no_whole && no_fraction {
        None
    } else {
        let shift = (whole.end - a) - whole.taken - fraction.taken;
        match spec_read_exponent(s, fraction.end as int) {
            None => None,
            Some(None) => Some(
                Number {
                    value: spec_signed(spec_minus_at(s, i), fraction.value, shift),
                    end: fraction.end,
                },
            ),
            Some(Some((e, end))) => Some(
                Number { value: spec_signed(spec_minus_at(s, i), fraction.value, e + shift), end },
            ),
        }
    }
}

/// Reads the number that starts at `i`, if one does.
pub fn read_number(s: &[u8], i: usize) -> (r: Option<Number>)
    requires
        i <= s.len(),
    ensures
        r == spec_read_number(s@, i as int),
        r matches Some(n) ==> i < n.end <= s.len(),
{
    let negative: bool = i < s.len() && s[i] == 45;
    let a: usize = if i < s.len() && (s[i] == 43 || s[i] == 45) {
        i + 1
    } else {
        i
    };
    let whole: Digits = read_digits(s, a, 0, 0);
    let point: bool = whole.end < s.len() && s[whole.end] == 46;
    let fraction: Digits = if point {
        read_digits(s, whole.end + 1, whole.value, 0)
    } else {
        Digits { end: whole.end, value: whole.value, taken: 0 }
    };
    let no_whole: bool = whole.end == a;
    let no_fraction: bool = !point || fraction.end == whole.end + 1;
    if no_whole && no_fraction {
        return None;
    }
    let shift: i128 = ((whole.end - a) as i128) - (whole.taken as i128) - (fraction.taken as i128);
    let p: usize = fraction.end;
    let mut exponent: i128 = 0;
    let mut end: usize = p;
    if p < s.len() && (s[p] == 101 || s[p] == 69) {
        let minus: bool = p + 1 < s.len() && s[p + 1] == 45;
        let q: usize = if p + 1 < s.len() && (s[p + 1] == 43 || s[p + 1] == 45) {
            p + 2
        } else {
            p + 1
        };
        let digits: Digits = read_digits(s, q, 0, 0);
        if digits.end == q {
            return None;
        }
        let size: i128 = if digits.value > EXPONENT_CAP {
            EXPONENT_CAP as i128
        } else {
            digits.value as i128
        };
        exponent = if minus {
            -size
        } else {
            size
        };
        end = digits.end;
    }
    let magnitude: i64 = scaled(fraction.value, exponent + shift);
    let raw: i64 = if negative {
        -magnitude
    } else {
        magnitude
    };
    Some(Number { value: Fixed { raw }, end })
}

/// Three numbers, the first after any white space from `i` on and the
/// others after one blank or more each.
pub open spec fn spec_read_triple(s: Seq<u8>, i: int) -> Option<(Fixed, Fixed, Fixed)> {
    match spec_read_number(s, spec_whites_end(s, i)) {
        None => None,
        Some(x) => {
            let j = spec_blanks_end(s, x.end as int);
            if j == x.end {
                None
            } else {
                match spec_read_number(s, j) {
                    None => None,
                    Some(y) => {
                        let k = spec_blanks_end(s, y.end as int);
                        if k == y.end {
                            None
                        } else {
                            match spec_read_number(s, k) {
                                None => None,
                                Some(z) => Some((x.value, y.value, z.value)),
                            }
                        }
                    },
                }
            }
        },
    }
}

/// Reads three numbers with blanks between them.
pub fn read_triple(s: &[u8], i: usize) -> (r: Option<(Fixed, Fixed, Fixed)>)
    requires
        i <= s.len(),
    ensures
        r == spec_read_triple(s@, i as int),
{
    let x: Number = match read_number(s, whites_end(s, i)) {
        Some(x) => x,
        None => {
            return None;
        },
    };
    let j: usize = blanks_end(s, x.end);
    if j == x.end {
        return None;
    }
    let y: Number = match read_number(s, j) {
        Some(y) => y,
        None => {
            return None;
        },
    };
    let k: usize = blanks_end(s, y.end);
    if k == y.end {
        return None;
    }
    match read_number(s, k) {
        Some(z) => Some((x.value, y.value, z.value)),
        None => None,
    }
}

} // verus!
