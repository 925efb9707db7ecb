//! Signed fixed-point scalars with thirty-two fractional bits.
//!
//! A [`Fixed`] stores `raw`, standing for the rational number `raw / 2^32`.
//! Every operation is total: results that leave the 64-bit range saturate at
//! the nearest bound, and quotients and products round toward negative
//! infinity.

use vstd::prelude::*;

verus! {

/// The raw value that stands for the number one.
pub const SCALE: i64 = 0x1_0000_0000;

/// Clamps a mathematical integer into the range of `i64`.
pub open spec fn saturate(v: int) -> i64 {
    if v < i64::MIN as int {
        i64::MIN
    } else if v > i64::MAX as int {
        i64::MAX
    } else {
        v as i64
    }
}

/// The quotient `n / d` rounded toward negative infinity, for `d != 0`.
pub open spec fn floor_div(n: int, d: int) -> int
    recommends
        d != 0,
{
    if d > 0 {
        n / d
    } else {
        (-n) / (-d)
    }
}

/// Whether `r` is the integer square root of `n`.
pub open spec fn is_isqrt(n: int, r: int) -> bool {
    0 <= r && r * r <= n && n < (r + 1) * (r + 1)
}

/// The integer square root: the largest natural `r` with `r * r <= n`
/// (zero for negative `n`).
pub open spec fn isqrt(n: int) -> int {
    if n <= 0 {
        0
    } else {
        choose|r: int| is_isqrt(n, r)
    }
}

/// A square root candidate is unique.
pub proof fn lemma_isqrt_unique(n: int, r: int, s: int)
    requires
        is_isqrt(n, r),
        is_isqrt(n, s),
    ensures
        r == s,
{
    assert(r == s) by (nonlinear_arith)
        requires
            0 <= r,
            r * r <= n,
            n < (r + 1) * (r + 1),
            0 <= s,
            s * s <= n,
            n < (s + 1) * (s + 1),
    {
        if r < s {
            assert((r + 1) * (r + 1) <= s * s);
        } else if s < r {
            assert((s + 1) * (s + 1) <= r * r);
        }
    }
}

/// Any witness of the square-root property is the integer square root.
pub proof fn lemma_isqrt_is(n: int, r: int)
    requires
        n > 0,
        is_isqrt(n, r),
    ensures
        isqrt(n) == r,
{
    let c = choose|c: int| is_isqrt(n, c);
    lemma_isqrt_unique(n, r, c);
}

/// Floor division of a negative numerator by a positive divisor, through
/// a quotient of naturals.
pub proof fn lemma_floor_div_negative(n: int, d: int)
    requires
        n < 0,
        d > 0,
    ensures
        n / d == -((-n + d - 1) / d),
{
    let m = -n + d - 1;
    let q = m / d;
    let r = m % d;
    vstd::arithmetic::div_mod::lemma_fundamental_div_mod(m, d);
    vstd::arithmetic::div_mod::lemma_mod_bound(m, d);
    assert(n == (-q) * d + (d - 1 - r)) by (nonlinear_arith)
        requires
            m == d * q + r,
            m == -n + d - 1,
    ;
    vstd::arithmetic::div_mod::lemma_fundamental_div_mod_converse(n, d, -q, d - 1 - r);
}

/// Clamps a wide integer into `i64`.
pub fn clamp_to_i64(v: i128) -> (r: i64)
    ensures
        r == saturate(v as int),
{
    if v < i64::MIN as i128 {
        i64::MIN
    } else if v > i64::MAX as i128 {
        i64::MAX
    } else {
        v as i64
    }
}

/// Divides rounding toward negative infinity.
pub fn floor_div_wide(n: i128, d: i128) -> (q: i128)
    requires
        d != 0,
        -0x4000_0000_0000_0000_0000_0000_0000_0000 <= n <= 0x4000_0000_0000_0000_0000_0000_0000_0000,
        -0x1_0000_0000_0000_0000 <= d <= 0x1_0000_0000_0000_0000,
    ensures
        q == floor_div(n as int, d as int),
        n >= 0 && d > 0 ==> 0 <= q <= n,
{
    let nn: i128 = if d < 0 { -n } else { n };
    let dd: i128 = if d < 0 { -d } else { d };
    if nn >= 0 {
        proof {
            vstd::arithmetic::div_mod::lemma_div_pos_is_pos(nn as int, dd as int);
            vstd::arithmetic::div_mod::lemma_div_nonincreasing(nn as int, dd as int);
        }
        nn / dd
    } else {
        let m: i128 = -nn + dd - 1;
        proof {
            lemma_floor_div_negative(nn as int, dd as int);
            vstd::arithmetic::div_mod::lemma_div_pos_is_pos(m as int, dd as int);
            vstd::arithmetic::div_mod::lemma_div_nonincreasing(m as int, dd as int);
        }
        let q: i128 = m / dd;
        -q
    }
}

/// The integer square root of a natural below `2^96`.
pub fn isqrt_wide(n: u128) -> (r: u128)
    requires
        n < 0x1_0000_0000_0000_0000_0000_0000,
    ensures
        r == isqrt(n as int),
        r < 0x1_0000_0000_0000,
{
    if n == 0 {
        return 0;
    }
    let mut lo: u128 = 0;
    let mut hi: u128 = 0x1_0000_0000_0000;
    assert(hi * hi == 0x1_0000_0000_0000_0000_0000_0000) by (nonlinear_arith)
        requires
            hi == 0x1_0000_0000_0000,
    ;
    while hi - lo > 1
        invariant
            lo < hi <= 0x1_0000_0000_0000,
            lo * lo <= n,
            n < hi * hi,
        decreases hi - lo,
    {
        let mid: u128 = lo + (hi - lo) / 2;
        assert(mid * mid < 0x1_0000_0000_0000_0000_0000_0000) by (nonlinear_arith)
            requires
                mid < 0x1_0000_0000_0000,
        ;
        if mid * mid <= n {
            lo = mid;
        } else {
            hi = mid;
        }
    }
    proof {
        assert(hi == lo + 1);
        lemma_isqrt_is(n as int, lo as int);
    }
    lo
}

/// A fixed-point number: `raw / 2^32`.
#[derive(Clone, Copy, Debug, PartialEq, Eq, Structural)]
pub struct Fixed {
    pub raw: i64,
}

impl Fixed {
    /// The number whose representation is `raw`.
    pub open spec fn spec_from_raw(raw: i64) -> Fixed {
        Fixed { raw }
    }

    #[verifier::when_used_as_spec(spec_from_raw)]
    pub fn from_raw(raw: i64) -> (r: Fixed)
        ensures
            r == Fixed::spec_from_raw(raw),
    {
        Fixed { raw }
    }

    /// The lowest number: what a depth buffer holds where nothing has been
    /// drawn.
    pub open spec fn spec_lowest() -> Fixed {
        Fixed { raw: i64::MIN }
    }

    #[verifier::when_used_as_spec(spec_lowest)]
    pub fn lowest() -> (r: Fixed)
        ensures
            r == Fixed::spec_lowest(),
    {
        Fixed { raw: i64::MIN }
    }

    /// The whole number `i`, represented exactly.
    pub open spec fn spec_from_int(i: i32) -> Fixed {
        Fixed { raw: (i * SCALE) as i64 }
    }

    #[verifier::when_used_as_spec(spec_from_int)]
    pub fn from_int(i: i32) -> (r: Fixed)
        ensures
            r == Fixed::spec_from_int(i),
            r.raw == i * 0x1_0000_0000,
    {
        let wide: i64 = i as i64;
        Fixed { raw: wide * SCALE }
    }

    /// The whole number `n`, saturating at the largest representable value.
    pub open spec fn spec_from_usize(n: usize) -> Fixed {
        Fixed { raw: saturate(n * SCALE) }
    }

    #[verifier::when_used_as_spec(spec_from_usize)]
    pub fn from_usize(n: usize) -> (r: Fixed)
        ensures
            r == Fixed::spec_from_usize(n),
    {
        let wide: u64 = n as u64;
        if wide > 0x7FFF_FFFF {
            Fixed { raw: i64::MAX }
        } else {
            let wide: i64 = wide as i64;
            Fixed { raw: wide * SCALE }
        }
    }

    /// The largest whole number not above `self`, as an integer.
    pub open spec fn spec_floor_to_int(self) -> i64 {
        (self.raw as int / SCALE as int) as i64
    }

    #[verifier::when_used_as_spec(spec_floor_to_int)]
    pub fn floor_to_int(self) -> (r: i64)
        ensures
            r == self.spec_floor_to_int(),
            r * 0x1_0000_0000 <= self.raw < (r + 1) * 0x1_0000_0000,
    {
        if self.raw >= 0 {
            self.raw / SCALE
        } else {
            let m: i64 = (-(self.raw + 1)) / SCALE;
            -m - 1
        }
    }

    /// The largest whole number not above `self`.
    pub open spec fn spec_floor(self) -> Fixed {
        Fixed { raw: (self.raw - self.raw as int % SCALE as int) as i64 }
    }

    #[verifier::when_used_as_spec(spec_floor)]
    pub fn floor(self) -> (r: Fixed)
        ensures
            r == self.spec_floor(),
            r.raw == self.spec_floor_to_int() * 0x1_0000_0000,
    {
        let whole: i64 = self.floor_to_int();
        Fixed { raw: whole * SCALE }
    }

    /// The whole part as an index; zero for negative numbers.
    pub open spec fn spec_to_usize(self) -> usize {
        if self.raw < 0 {
            0
        } else {
            (self.raw as int / SCALE as int) as usize
        }
    }

    #[verifier::when_used_as_spec(spec_to_usize)]
    pub fn to_usize(self) -> (r: usize)
        ensures
            r == self.spec_to_usize(),
            r <= 0x7FFF_FFFF,
    {
        if self.raw < 0 {
            0
        } else {
            let q: i64 = self.raw / SCALE;
            q as usize
        }
    }

    /// The whole part rounded toward zero.
    pub open spec fn spec_to_i32(self) -> i32 {
        if self.raw >= 0 {
            (self.raw as int / SCALE as int) as i32
        } else {
            (-((-(self.raw as int)) / SCALE as int)) as i32
        }
    }

    #[verifier::when_used_as_spec(spec_to_i32)]
    pub fn to_i32(self) -> (r: i32)
        ensures
            r == self.spec_to_i32(),
    {
        let wide: i128 = self.raw as i128;
        let q: i128 = if wide >= 0 {
            wide / 0x1_0000_0000
        } else {
            -((-wide) / 0x1_0000_0000)
        };
        q as i32
    }

    /// The sum, saturating.
    pub open spec fn spec_add(self, o: Fixed) -> Fixed {
        Fixed { raw: saturate(self.raw + o.raw) }
    }

    #[verifier::when_used_as_spec(spec_add)]
    pub fn add(self, o: Fixed) -> (r: Fixed)
        ensures
            r == self.spec_add(o),
    {
        Fixed { raw: clamp_to_i64(self.raw as i128 + o.raw as i128) }
    }

    /// The difference, saturating.
    pub open spec fn spec_sub(self, o: Fixed) -> Fixed {
        Fixed { raw: saturate(self.raw - o.raw) }
    }

    #[verifier::when_used_as_spec(spec_sub)]
    pub fn sub(self, o: Fixed) -> (r: Fixed)
        ensures
            r == self.spec_sub(o),
    {
        Fixed { raw: clamp_to_i64(self.raw as i128 - o.raw as i128) }
    }

    /// The negation, saturating.
    pub open spec fn spec_neg(self) -> Fixed {
        Fixed { raw: saturate(-self.raw) }
    }

    #[verifier::when_used_as_spec(spec_neg)]
    pub fn neg(self) -> (r: Fixed)
        ensures
            r == self.spec_neg(),
    {
        Fixed { raw: clamp_to_i64(-(self.raw as i128)) }
    }

    /// The absolute value, saturating.
    pub open spec fn spec_abs(self) -> Fixed {
        if self.raw < 0 {
            self.spec_neg()
        } else {
            self
        }
    }

    #[verifier::when_used_as_spec(spec_abs)]
    pub fn abs(self) -> (r: Fixed)
        ensures
            r == self.spec_abs(),
    {
        if self.raw < 0 {
            self.neg()
        } else {
            self
        }
    }

    /// The product, rounded toward negative infinity and saturating.
    pub open spec fn spec_mul(self, o: Fixed) -> Fixed {
        Fixed { raw: saturate((self.raw * o.raw) / SCALE as int) }
    }

    #[verifier::when_used_as_spec(spec_mul)]
    pub fn mul(self, o: Fixed) -> (r: Fixed)
        ensures
            r == self.spec_mul(o),
    {
        let a: i128 = self.raw as i128;
        let b: i128 = o.raw as i128;
        assert(-0x4000_0000_0000_0000_0000_0000_0000_0000 <= a * b
            <= 0x4000_0000_0000_0000_0000_0000_0000_0000) by (nonlinear_arith)
            requires
                -0x8000_0000_0000_0000 <= a <= 0x7FFF_FFFF_FFFF_FFFF,
                -0x8000_0000_0000_0000 <= b <= 0x7FFF_FFFF_FFFF_FFFF,
        ;
        let p: i128 = a * b;
        let q: i128 = floor_div_wide(p, 0x1_0000_0000);
        Fixed { raw: clamp_to_i64(q) }
    }

    /// The quotient, rounded toward negative infinity and saturating.
    /// Division by zero saturates in the direction of the dividend's sign,
    /// and zero divided by zero is zero.
    pub open spec fn spec_div(self, o: Fixed) -> Fixed {
        if o.raw == 0 {
            if self.raw > 0 {
                Fixed { raw: i64::MAX }
            } else if self.raw < 0 {
                Fixed { raw: i64::MIN }
            } else {
                Fixed { raw: 0 }
            }
        } else {
            Fixed { raw: saturate(floor_div(self.raw * SCALE, o.raw as int)) }
        }
    }

    #[verifier::when_used_as_spec(spec_div)]
    pub fn div(self, o: Fixed) -> (r: Fixed)
        ensures
            r == self.spec_div(o),
    {
        if o.raw == 0 {
            if self.raw > 0 {
                Fixed { raw: i64::MAX }
            } else if self.raw < 0 {
                Fixed { raw: i64::MIN }
            } else {
                Fixed { raw: 0 }
            }
        } else {
            let n: i128 = (self.raw as i128) * 0x1_0000_0000;
            let q: i128 = floor_div_wide(n, o.raw as i128);
            Fixed { raw: clamp_to_i64(q) }
        }
    }

    /// The square root, rounded toward zero; zero for negative numbers.
    pub open spec fn spec_sqrt(self) -> Fixed {
        Fixed { raw: isqrt(self.raw * SCALE) as i64 }
    }

    #[verifier::when_used_as_spec(spec_sqrt)]
    pub fn sqrt(self) -> (r: Fixed)
        ensures
            r == self.spec_sqrt(),
            0 <= r.raw < 0x1_0000_0000_0000,
    {
        if self.raw <= 0 {
            Fixed { raw: 0 }
        } else {
            let n: u128 = (self.raw as u128) * 0x1_0000_0000;
            let root: u128 = isqrt_wide(n);
            Fixed { raw: root as i64 }
        }
    }

    /// The `n`-th power by repeated multiplication from the left, each
    /// product rounded and saturating as `mul` does.
    pub open spec fn spec_powi(self, n: u32) -> Fixed
        decreases n,
    {
        if n == 0 {
            Fixed { raw: SCALE }
        } else {
            self.spec_powi((n - 1) as u32).spec_mul(self)
        }
    }

    #[verifier::when_used_as_spec(spec_powi)]
    pub fn powi(self, n: u32) -> (r: Fixed)
        ensures
            r == self.spec_powi(n),
    {
        let mut acc: Fixed = Fixed { raw: SCALE };
        let mut i: u32 = 0;
        while i < n
            invariant
                i <= n,
                acc == self.spec_powi(i),
            decreases n - i,
        {
            acc = acc.mul(self);
            i = i + 1;
        }
        acc
    }

    /// The larger of two numbers.
    pub open spec fn spec_max(self, o: Fixed) -> Fixed {
        if self.raw >= o.raw {
            self
        } else {
            o
        }
    }

    #[verifier::when_used_as_spec(spec_max)]
    pub fn max(self, o: Fixed) -> (r: Fixed)
        ensures
            r == self.spec_max(o),
    {
        if self.raw >= o.raw {
            self
        } else {
            o
        }
    }

    /// The smaller of two numbers.
    pub open spec fn spec_min(self, o: Fixed) -> Fixed {
        if self.raw <= o.raw {
            self
        } else {
            o
        }
    }

    #[verifier::when_used_as_spec(spec_min)]
    pub fn min(self, o: Fixed) -> (r: Fixed)
        ensures
            r == self.spec_min(o),
    {
        if self.raw <= o.raw {
            self
        } else {
            o
        }
    }
}

/// The product of two numbers that are not negative is not negative.
pub proof fn lemma_mul_not_negative(a: Fixed, b: Fixed)
    requires
        a.raw >= 0,
        b.raw >= 0,
    ensures
        a.spec_mul(b).raw >= 0,
{
    assert(a.raw * b.raw >= 0) by (nonlinear_arith)
        requires
            a.raw >= 0,
            b.raw >= 0,
    ;
}

/// The powers of a number that is not negative are not negative.
pub proof fn lemma_powi_not_negative(base: Fixed, n: u32)
    requires
        base.raw >= 0,
    ensures
        base.spec_powi(n).raw >= 0,
    decreases n,
{
    if n > 0 {
        lemma_powi_not_negative(base, (n - 1) as u32);
        lemma_mul_not_negative(base.spec_powi((n - 1) as u32), base);
    }
}

} // verus!
