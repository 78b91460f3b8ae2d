//! Fixed-point scalar arithmetic.
//!
//! A `Fixed` holds a real number scaled by `SCALE` (2^32) in a signed 64-bit
//! word. Every operation is total: results that would leave the 64-bit range
//! saturate, division by zero saturates toward the sign of the dividend, and
//! the square root of a negative number is zero. Each operation is specified
//! exactly by a spec function over the underlying integers.

use vstd::prelude::*;

verus! {

use vstd::math::abs;

/// The unit of the fixed-point representation: `Fixed { raw: SCALE }` is 1.
pub const SCALE: i64 = 4294967296;

/// The raw value of the geometric tolerance: about one millionth of a unit,
/// used to nudge secondary rays off a surface and to widen end-cap bands.
pub const EPSILON_RAW: i64 = 4295;

/// Saturate a mathematical integer into the signed 64-bit range.
pub open spec fn sat64(x: int) -> int {
    if x > i64::MAX as int {
        i64::MAX as int
    } else if x < i64::MIN as int {
        i64::MIN as int
    } else {
        x
    }
}

/// Fixed-point sum: raw values add, saturating.
pub open spec fn fx_add(a: int, b: int) -> int {
    sat64(a + b)
}

/// Fixed-point difference: raw values subtract, saturating.
pub open spec fn fx_sub(a: int, b: int) -> int {
    sat64(a - b)
}

/// Fixed-point negation, saturating (the minimum raw value negates to the maximum).
pub open spec fn fx_neg(a: int) -> int {
    sat64(-a)
}

/// Fixed-point product: the exact product of the magnitudes is rescaled by
/// `SCALE` rounding toward zero, then signed and saturated.
pub open spec fn fx_mul(a: int, b: int) -> int {
    let m = (abs(a) as int * abs(b) as int) / (SCALE as int);
    if (a < 0) <==> (b < 0) {
        sat64(m)
    } else {
        sat64(-m)
    }
}

/// Fixed-point quotient, rounding toward zero, saturating. A zero divisor
/// saturates toward the sign of the dividend (mirroring division of reals
/// tending to infinity); zero over zero is zero.
pub open spec fn fx_div(a: int, b: int) -> int {
    if b == 0 {
        if a > 0 {
            i64::MAX as int
        } else if a < 0 {
            i64::MIN as int
        } else {
            0
        }
    } else {
        let q = (abs(a) as int * (SCALE as int)) / (abs(b) as int);
        if (a < 0) <==> (b < 0) {
            sat64(q)
        } else {
            sat64(-q)
        }
    }
}

/// Integer square root by unary recursion: the largest `r` with `r * r <= n`.
pub open spec fn isqrt_spec(n: nat) -> nat
    decreases n,
{
    if n == 0 {
        0
    } else {
        let r = isqrt_spec((n - 1) as nat);
        if (r + 1) * (r + 1) <= n {
            r + 1
        } else {
            r
        }
    }
}

/// Fixed-point square root: the integer square root of the raw value rescaled
/// by `SCALE`; zero on non-positive input.
pub open spec fn fx_sqrt(a: int) -> int {
    if a <= 0 {
        0
    } else {
        isqrt_spec((a * (SCALE as int)) as nat) as int
    }
}

/// Floor of a fixed-point value, in whole units.
pub open spec fn fx_floor_units(a: int) -> int {
    a / (SCALE as int)
}

/// `isqrt_spec(n)` is the integer square root of `n`.
pub proof fn lemma_isqrt_bounds(n: nat)
    ensures
        isqrt_spec(n) * isqrt_spec(n) <= n,
        n < (isqrt_spec(n) + 1) * (isqrt_spec(n) + 1),
    decreases n,
{
    if n == 0 {
        assert(isqrt_spec(0) == 0);
        assert(0 < (0 + 1) * (0 + 1)) by (nonlinear_arith);
    } else {
        lemma_isqrt_bounds((n - 1) as nat);
        let r = isqrt_spec((n - 1) as nat);
        assert(r * r <= n - 1);
        assert(n - 1 < (r + 1) * (r + 1));
        if (r + 1) * (r + 1) <= n {
            assert(isqrt_spec(n) == r + 1);
            assert(n <= (r + 1) * (r + 1));
            assert((r + 1) * (r + 1) < (r + 1 + 1) * (r + 1 + 1)) by (nonlinear_arith);
            assert(n < (r + 1 + 1) * (r + 1 + 1));
        } else {
            assert(isqrt_spec(n) == r);
            assert(r * r <= n);
            assert(n < (r + 1) * (r + 1));
        }
    }
}

/// Any `r` bracketed by consecutive squares around `n` is `isqrt_spec(n)`.
pub proof fn lemma_isqrt_unique(n: nat, r: nat)
    requires
        r * r <= n,
        n < (r + 1) * (r + 1),
    ensures
        r == isqrt_spec(n),
{
    lemma_isqrt_bounds(n);
    let s = isqrt_spec(n);
    if r < s {
        assert((r + 1) * (r + 1) <= s * s) by (nonlinear_arith)
            requires r + 1 <= s;
    }
    if s < r {
        assert((s + 1) * (s + 1) <= r * r) by (nonlinear_arith)
            requires s + 1 <= r;
    }
}

/// A fixed-point scalar: the real number `raw / SCALE`.
#[derive(Clone, Copy, PartialEq, Eq, Structural, Debug, Hash)]
pub struct Fixed {
    pub raw: i64,
}

/// Clamp a 128-bit intermediate into the 64-bit range.
fn clamp_to_i64(x: i128) -> (r: i64)
    ensures
        r as int == sat64(x as int),
{
    if x > i64::MAX as i128 {
        i64::MAX
    } else if x < i64::MIN as i128 {
        i64::MIN
    } else {
        x as i64
    }
}

/// The magnitude of a signed 64-bit value, exactly.
fn abs_u128(x: i64) -> (r: u128)
    ensures
        r as int == abs(x as int),
{
    if x >= 0 {
        x as u128
    } else {
        (-(x as i128)) as u128
    }
}

/// Reattach a sign to a magnitude, saturating into the 64-bit range.
fn signed_from_mag(q: u128, neg: bool) -> (r: i64)
    ensures
        r as int == if neg { sat64(-(q as int)) } else { sat64(q as int) },
{
    if neg {
        if q >= 0x8000000000000000u128 {
            i64::MIN
        } else {
            -(q as i64)
        }
    } else {
        if q > i64::MAX as u128 {
            i64::MAX
        } else {
            q as i64
        }
    }
}

/// Binary search for the integer square root of a 128-bit value below 2^96.
fn isqrt_u128(n: u128) -> (r: u128)
    requires
        n < 0x1000000000000000000000000u128,
    ensures
        (r as int) * (r as int) <= n as int,
        (n as int) < (r as int + 1) * (r as int + 1),
{
    let mut lo: u128 = 0;
    let mut hi: u128 = 0xFFFFFFFFFFFFu128;
    assert((0xFFFFFFFFFFFFu128 as int + 1) * (0xFFFFFFFFFFFFu128 as int + 1)
        == 0x1000000000000000000000000) by (nonlinear_arith);
    while lo < hi
        invariant
            lo <= hi <= 0xFFFFFFFFFFFFu128,
            (lo as int) * (lo as int) <= n as int,
            (n as int) < (hi as int + 1) * (hi as int + 1),
        decreases hi - lo,
    {
        let mid: u128 = lo + (hi - lo + 1) / 2;
        assert(lo < mid <= hi);
        assert((mid as int) * (mid as int) < 0x1000000000000000000000000) by (nonlinear_arith)
            requires mid <= 0xFFFFFFFFFFFFu128;
        if mid * mid <= n {
            lo = mid;
        } else {
            hi = mid - 1;
        }
    }
    lo
}

impl Fixed {
    /// The raw value as a mathematical integer.
    pub open spec fn v(self) -> int {
        self.raw as int
    }

    pub open spec fn spec_add(self, rhs: Fixed) -> Fixed {
        Fixed { raw: fx_add(self.v(), rhs.v()) as i64 }
    }

    pub open spec fn spec_sub(self, rhs: Fixed) -> Fixed {
        Fixed { raw: fx_sub(self.v(), rhs.v()) as i64 }
    }

    pub open spec fn spec_neg(self) -> Fixed {
        Fixed { raw: fx_neg(self.v()) as i64 }
    }

    pub open spec fn spec_mul(self, rhs: Fixed) -> Fixed {
        Fixed { raw: fx_mul(self.v(), rhs.v()) as i64 }
    }

    pub open spec fn spec_div(self, rhs: Fixed) -> Fixed {
        Fixed { raw: fx_div(self.v(), rhs.v()) as i64 }
    }

    pub open spec fn spec_sqrt(self) -> Fixed {
        Fixed { raw: fx_sqrt(self.v()) as i64 }
    }

    pub open spec fn spec_max(self, rhs: Fixed) -> Fixed {
        if self.raw >= rhs.raw {
            self
        } else {
            rhs
        }
    }

    pub open spec fn spec_min(self, rhs: Fixed) -> Fixed {
        if self.raw <= rhs.raw {
            self
        } else {
            rhs
        }
    }

    pub open spec fn spec_abs(self) -> Fixed {
        Fixed { raw: sat64(abs(self.v()) as int) as i64 }
    }

    /// Construct from a raw scaled value.
    pub fn from_raw(raw: i64) -> (r: Fixed)
        ensures
            r.raw == raw,
    {
        Fixed { raw }
    }

    /// Construct from a whole number of units.
    pub fn from_int(v: i64) -> (r: Fixed)
        requires
            -2147483648 <= v <= 2147483646,
        ensures
            r.raw == v * SCALE,
    {
        Fixed { raw: v * SCALE }
    }

    /// Zero.
    pub fn zero() -> (r: Fixed)
        ensures
            r.raw == 0,
    {
        Fixed { raw: 0 }
    }

    /// One unit.
    pub fn one() -> (r: Fixed)
        ensures
            r.raw == SCALE,
    {
        Fixed { raw: SCALE }
    }

    pub fn add(self, rhs: Fixed) -> (r: Fixed)
        ensures
            r.raw == fx_add(self.v(), rhs.v()),
            r == self.spec_add(rhs),
    {
        let s: i128 = self.raw as i128 + rhs.raw as i128;
        Fixed { raw: clamp_to_i64(s) }
    }

    pub fn sub(self, rhs: Fixed) -> (r: Fixed)
        ensures
            r.raw == fx_sub(self.v(), rhs.v()),
            r == self.spec_sub(rhs),
    {
        let s: i128 = self.raw as i128 - rhs.raw as i128;
        Fixed { raw: clamp_to_i64(s) }
    }

    pub fn neg(self) -> (r: Fixed)
        ensures
            r.raw == fx_neg(self.v()),
            r == self.spec_neg(),
    {
        let s: i128 = -(self.raw as i128);
        Fixed { raw: clamp_to_i64(s) }
    }

    pub fn mul(self, rhs: Fixed) -> (r: Fixed)
        ensures
            r.raw == fx_mul(self.v(), rhs.v()),
            r == self.spec_mul(rhs),
    {
        let am = abs_u128(self.raw);
        let bm = abs_u128(rhs.raw);
        assert((am as int) * (bm as int) <= 0x8000000000000000 * 0x8000000000000000)
            by (nonlinear_arith)
            requires am <= 0x8000000000000000u128 && bm <= 0x8000000000000000u128;
        let p: u128 = am * bm;
        let q: u128 = p / (SCALE as u128);
        Fixed { raw: signed_from_mag(q, (self.raw < 0) != (rhs.raw < 0)) }
    }

    pub fn div(self, rhs: Fixed) -> (r: Fixed)
        ensures
            r.raw == fx_div(self.v(), rhs.v()),
            r == self.spec_div(rhs),
    {
        if rhs.raw == 0 {
            if self.raw > 0 {
                Fixed { raw: i64::MAX }
            } else if self.raw < 0 {
                Fixed { raw: i64::MIN }
            } else {
                Fixed { raw: 0 }
            }
        } else {
            let am = abs_u128(self.raw);
            let bm = abs_u128(rhs.raw);
            assert((am as int) * (SCALE as int) <= 0x8000000000000000 * 0x100000000)
                by (nonlinear_arith)
                requires am <= 0x8000000000000000u128;
            let p: u128 = am * (SCALE as u128);
            let q: u128 = p / bm;
            Fixed { raw: signed_from_mag(q, (self.raw < 0) != (rhs.raw < 0)) }
        }
    }

    pub fn sqrt(self) -> (r: Fixed)
        ensures
            r.raw == fx_sqrt(self.v()),
            r == self.spec_sqrt(),
    {
        if self.raw <= 0 {
            Fixed { raw: 0 }
        } else {
            assert((self.raw as int) * (SCALE as int) < 0x1000000000000000000000000)
                by (nonlinear_arith)
                requires 0 < self.raw <= i64::MAX;
            let n: u128 = (self.raw as u128) * (SCALE as u128);
            let r = isqrt_u128(n);
            proof {
                lemma_isqrt_unique(n as nat, r as nat);
                assert((r as int) * (r as int) <= n as int);
                assert(r < 0x1000000000000u128) by (nonlinear_arith)
                    requires
                        (r as int) * (r as int) <= n as int,
                        (n as int) < 0x1000000000000000000000000;
            }
            Fixed { raw: r as i64 }
        }
    }

    /// The absolute value, saturating.
    pub fn abs(self) -> (r: Fixed)
        ensures
            r == self.spec_abs(),
    {
        if self.raw >= 0 {
            self
        } else {
            self.neg()
        }
    }

    pub fn lt(self, rhs: Fixed) -> (b: bool)
        ensures
            b == (self.raw < rhs.raw),
    {
        self.raw < rhs.raw
    }

    pub fn le(self, rhs: Fixed) -> (b: bool)
        ensures
            b == (self.raw <= rhs.raw),
    {
        self.raw <= rhs.raw
    }

    pub fn max(self, rhs: Fixed) -> (r: Fixed)
        ensures
            r == self.spec_max(rhs),
    {
        if self.raw >= rhs.raw {
            self
        } else {
            rhs
        }
    }

    pub fn min(self, rhs: Fixed) -> (r: Fixed)
        ensures
            r == self.spec_min(rhs),
    {
        if self.raw <= rhs.raw {
            self
        } else {
            rhs
        }
    }

    /// The floor in whole units (fits in units of at most 2^31).
    pub fn floor_units(self) -> (u: i64)
        ensures
            u == fx_floor_units(self.v()),
            -2147483648 <= u <= 2147483647,
    {
        proof {
            lemma_floor_scaled(self.raw as int);
        }
        let m = abs_u128(self.raw);
        let q: u128 = m / (SCALE as u128);
        let rem: u128 = m % (SCALE as u128);
        if self.raw >= 0 {
            proof {
                vstd::arithmetic::div_mod::lemma_fundamental_div_mod(self.raw as int, SCALE as int);
            }
            q as i64
        } else {
            let qi: i128 = if rem == 0 {
                -(q as i128)
            } else {
                -(q as i128) - 1
            };
            proof {
                lemma_floor_neg(self.raw as int, q as int, rem as int);
            }
            qi as i64
        }
    }

    /// The largest multiple of one unit at or below this value, as a scalar.
    pub fn floor(self) -> (r: Fixed)
        ensures
            r.raw == fx_floor_units(self.v()) * SCALE,
    {
        let u = self.floor_units();
        proof {
            lemma_floor_scaled(self.raw as int);
        }
        Fixed { raw: u * SCALE }
    }
}

/// Raising to a natural power by left-to-right multiplication.
pub open spec fn spec_powi(b: Fixed, n: nat) -> Fixed
    decreases n,
{
    if n == 0 {
        Fixed { raw: SCALE }
    } else {
        spec_powi(b, (n - 1) as nat).spec_mul(b)
    }
}

impl Fixed {
    /// This value raised to a whole non-negative power.
    pub fn powi(self, n: u64) -> (r: Fixed)
        ensures
            r == spec_powi(self, n as nat),
    {
        let mut result = Fixed::one();
        let mut i: u64 = 0;
        while i < n
            invariant
                i <= n,
                result == spec_powi(self, i as nat),
            decreases n - i,
        {
            result = result.mul(self);
            i += 1;
        }
        result
    }
}

/// Zero, as a scalar.
pub open spec fn fx_zero() -> Fixed {
    Fixed { raw: 0 }
}

/// One unit, as a scalar.
pub open spec fn fx_one() -> Fixed {
    Fixed { raw: SCALE }
}

/// Two units, as a scalar.
pub open spec fn fx_two() -> Fixed {
    Fixed { raw: 8589934592 }
}

/// Four units, as a scalar.
pub open spec fn fx_four() -> Fixed {
    Fixed { raw: 17179869184 }
}

/// The geometric tolerance, as a scalar.
pub open spec fn fx_epsilon() -> Fixed {
    Fixed { raw: EPSILON_RAW }
}

/// Whether a whole-unit count is even.
pub fn even_units(v: i64) -> (b: bool)
    ensures
        b == (v % 2 == 0),
{
    let m: u64 = if v >= 0 {
        v as u64
    } else {
        (-(v as i128)) as u64
    };
    proof {
        if v < 0 {
            lemma_parity_neg(v as int, m as int);
        }
    }
    m % 2 == 0
}

/// Negation preserves parity under Euclidean remainder.
proof fn lemma_parity_neg(v: int, m: int)
    requires
        v < 0,
        m == -v,
    ensures
        (v % 2 == 0) == (m % 2 == 0),
{
    vstd::arithmetic::div_mod::lemma_fundamental_div_mod(m, 2);
    let q = m / 2;
    let r = m % 2;
    if r == 0 {
        assert(v == (-q) * 2 + 0) by (nonlinear_arith)
            requires v == -(q * 2);
        vstd::arithmetic::div_mod::lemma_fundamental_div_mod_converse(v, 2, -q, 0);
    } else {
        assert(v == (-q - 1) * 2 + (2 - r)) by (nonlinear_arith)
            requires v == -(q * 2 + r);
        vstd::arithmetic::div_mod::lemma_fundamental_div_mod_converse(v, 2, -q - 1, 2 - r);
    }
}

/// Relates magnitude division to Euclidean division for negative values.
proof fn lemma_floor_neg(a: int, q: int, rem: int)
    requires
        a < 0,
        q == abs(a) as int / (SCALE as int),
        rem == abs(a) as int % (SCALE as int),
    ensures
        (if rem == 0 { -q } else { -q - 1 }) == a / (SCALE as int),
{
    let s = SCALE as int;
    let m = abs(a) as int;
    vstd::arithmetic::div_mod::lemma_fundamental_div_mod(m, s);
    assert(m == q * s + rem);
    assert(a == -m);
    if rem == 0 {
        assert(a == (-q) * s + 0) by (nonlinear_arith)
            requires a == -(q * s);
        vstd::arithmetic::div_mod::lemma_fundamental_div_mod_converse(a, s, -q, 0);
    } else {
        assert(a == (-q - 1) * s + (s - rem)) by (nonlinear_arith)
            requires a == -(q * s + rem);
        vstd::arithmetic::div_mod::lemma_fundamental_div_mod_converse(a, s, -q - 1, s - rem);
    }
}

/// The floor times the scale stays within the 64-bit range.
proof fn lemma_floor_scaled(a: int)
    requires
        i64::MIN <= a <= i64::MAX,
    ensures
        i64::MIN <= (a / (SCALE as int)) * SCALE <= a,
        -2147483648 <= a / (SCALE as int) <= 2147483647,
{
    let s = SCALE as int;
    vstd::arithmetic::div_mod::lemma_fundamental_div_mod(a, s);
    assert(0 <= a % s < s);
    assert(a / s * s == a - a % s);
    assert(-2147483648 <= a / s <= 2147483647) by {
        vstd::arithmetic::div_mod::lemma_div_is_ordered(i64::MIN as int, a, s);
        vstd::arithmetic::div_mod::lemma_div_is_ordered(a, i64::MAX as int, s);
        assert(i64::MIN as int / s == -2147483648);
        assert(i64::MAX as int / s == 2147483647);
    }
}

} // verus!
