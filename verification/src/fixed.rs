//! Unsigned fixed-point numbers with a decimal scale.
//!
//! A [`Fixed`] stores a non-negative quantity as an integer count of
//! `1 / SCALE` units, so `raw == 1_400_000` denotes `1.4`. Every operation
//! is total: divisions by zero yield zero and results too large for the
//! carrier saturate at `u64::MAX`. The spec functions below state the exact
//! integer result of each operation, so callers reason about the arithmetic
//! without reading the bodies.

use vstd::prelude::*;

verus! {

/// Number of raw units in one; `raw / SCALE` is the represented value.
pub const SCALE: u64 = 1_000_000;

/// Clamp an unbounded integer into the range of `u64`.
pub open spec fn sat_u64(x: int) -> int {
    if x > u64::MAX { u64::MAX as int } else { x }
}

/// Clamp an unbounded integer into the range of `usize`.
pub open spec fn sat_usize(x: int) -> int {
    if x > usize::MAX { usize::MAX as int } else { x }
}

/// Raw value of the fixed-point number denoting the integer `n`.
pub open spec fn from_int_raw(n: int) -> int {
    sat_u64(n * SCALE)
}

/// Raw value of the product of two fixed-point numbers (truncating).
pub open spec fn mul_raw(a: int, b: int) -> int {
    sat_u64((a * b) / (SCALE as int))
}

/// Raw value of the quotient of two fixed-point numbers; zero when the
/// divisor is zero.
pub open spec fn div_raw(a: int, b: int) -> int {
    if b == 0 { 0 } else { sat_u64((a * SCALE) / b) }
}

/// Raw value of `a * n / d` for a fixed-point `a` and plain integers `n`, `d`;
/// zero when `d` is zero.
pub open spec fn mul_div_raw(a: int, n: int, d: int) -> int {
    if d == 0 { 0 } else { sat_u64((a * n) / d) }
}

/// Raw value after folding sample `x` into a decayed average `v` over a
/// window of length `len`: the average moves towards `x` with weight `1/len`.
pub open spec fn fold_raw(v: int, x: int, len: int) -> int {
    ((len - 1) * v + x) / len
}

/// Plain integer obtained by scaling `n` with the fixed-point factor `f`
/// (truncating), clamped to `usize`.
pub open spec fn scale_int_raw(n: int, f: int) -> int {
    sat_usize((n * f) / (SCALE as int))
}

/// Integer part of a fixed-point raw value.
pub open spec fn trunc_raw(a: int) -> int {
    a / (SCALE as int)
}

/// Bound on a product of bounded non-negative factors, used to show that
/// intermediate products of `u64` values fit in `u128`.
pub proof fn lemma_mul_le(a: int, b: int, ma: int, mb: int)
    by (nonlinear_arith)
    requires
        0 <= a <= ma,
        0 <= b <= mb,
    ensures
        a * b <= ma * mb,
{
}

/// Raw value of the `e`-th power of a fixed-point base with raw value `b`,
/// truncating and saturating at each multiplication; one (raw `SCALE`) at
/// exponent zero.
pub open spec fn pow_fixed_raw(b: int, e: nat) -> int
    decreases e,
{
    if e == 0 {
        SCALE as int
    } else {
        mul_raw(pow_fixed_raw(b, (e - 1) as nat), b)
    }
}

/// Powers of two over the naturals.
pub open spec fn two_pow(e: nat) -> nat
    decreases e,
{
    if e == 0 {
        1
    } else {
        2 * two_pow((e - 1) as nat)
    }
}

/// Powers of two are monotone.
pub proof fn lemma_two_pow_le(s: nat, t: nat)
    requires
        s <= t,
    ensures
        two_pow(s) <= two_pow(t),
    decreases t,
{
    if s < t {
        lemma_two_pow_le(s, (t - 1) as nat);
    }
}

/// The sixty-fifth power of two, by unfolding the definition.
pub proof fn lemma_two_pow_65()
    ensures
        two_pow(65) == 0x20000000000000000,
{
    reveal_with_fuel(two_pow, 66);
}

/// Raw value of the saturating sum of two fixed-point numbers.
pub open spec fn add_sat_raw(a: int, b: int) -> int {
    sat_u64(a + b)
}

/// The integer square root of a non-negative integer: the unique `r` with
/// `r * r <= x < (r + 1) * (r + 1)`.
pub open spec fn sqrt_raw(x: int) -> int {
    choose|r: int| #![trigger r * r] 0 <= r && r * r <= x < (r + 1) * (r + 1)
}

/// Squares of non-negative integers respect the order, so the integer
/// square root is unique.
pub proof fn lemma_sq_le(a: int, b: int)
    by (nonlinear_arith)
    requires
        0 <= a,
        0 <= b,
        a * a < (b + 1) * (b + 1),
    ensures
        a <= b,
{
}

/// A witness with `r * r <= x < (r + 1) * (r + 1)` is the integer square
/// root of `x`.
pub proof fn lemma_sqrt_raw_is(x: int, r: int)
    requires
        0 <= r,
        r * r <= x < (r + 1) * (r + 1),
    ensures
        sqrt_raw(x) == r,
{
    assert(exists|c: int| #![trigger c * c] 0 <= c && c * c <= x < (c + 1) * (c + 1)) by {
        assert(0 <= r && r * r <= x < (r + 1) * (r + 1));
    }
    let c = sqrt_raw(x);
    assert(0 <= c && c * c <= x < (c + 1) * (c + 1));
    lemma_sq_le(c, r);
    lemma_sq_le(r, c);
}

/// Integer square root of `x`, found by a descending binary search over the
/// bits of the root.
fn isqrt(x: u128) -> (r: u64)
    requires
        x < 0x1000000000000000000000,
    ensures
        r * r <= x < (r + 1) * (r + 1),
        r < 0x40000000000,
    {
    let mut r: u64 = 0;
    let mut bit: u64 = 0x40000000000;
    let ghost mut e: nat = 42nat;
    proof {
        assert(two_pow(42nat) == 0x40000000000) by {
            reveal_with_fuel(two_pow, 43);
        }
    }
    while bit > 1
        invariant
            bit == two_pow(e),
            1 <= bit,
            r * r <= x,
            x < (r + bit) * (r + bit),
            r <= 0x40000000000 - bit,
        decreases bit,
    {
        proof {
            e = (e - 1) as nat;
            assert(two_pow((e + 1) as nat) == 2 * two_pow(e));
        }
        bit = bit / 2;
        let cand: u64 = r + bit;
        proof {
            lemma_mul_le(cand as int, cand as int, 0x40000000000, 0x40000000000);
        }
        if (cand as u128) * (cand as u128) <= x {
            r = cand;
        }
    }
    r
}

/// A folded average of values below a bound stays below that bound.
pub proof fn lemma_fold_bound(v: int, x: int, len: int, m: int)
    by (nonlinear_arith)
    requires
        0 <= v <= m,
        0 <= x <= m,
        1 <= len,
    ensures
        0 <= ((len - 1) * v + x) / len <= m,
{
}

/// A non-negative fixed-point number with `SCALE` units per one.
#[derive(Clone, Copy, Debug, PartialEq, Eq, Structural)]
pub struct Fixed {
    pub raw: u64,
}

impl Fixed {
    /// The number zero.
    pub fn zero() -> (r: Fixed)
        ensures
            r.raw == 0,
    {
        Fixed { raw: 0 }
    }

    /// The fixed-point number holding exactly `n / SCALE`.
    pub fn from_micros(n: u64) -> (r: Fixed)
        ensures
            r.raw == n,
    {
        Fixed { raw: n }
    }

    /// The fixed-point number denoting the integer `n`, saturating.
    pub fn from_int(n: u64) -> (r: Fixed)
        ensures
            r.raw == from_int_raw(n as int),
    {
        proof {
            lemma_mul_le(n as int, SCALE as int, u64::MAX as int, SCALE as int);
        }
        let p: u128 = (n as u128) * (SCALE as u128);
        if p > u64::MAX as u128 {
            Fixed { raw: u64::MAX }
        } else {
            Fixed { raw: p as u64 }
        }
    }

    /// Integer part of the represented value.
    pub fn trunc(self) -> (r: u64)
        ensures
            r == trunc_raw(self.raw as int),
    {
        self.raw / SCALE
    }

    /// Product of two fixed-point numbers, truncating and saturating.
    pub fn mul_fixed(self, other: Fixed) -> (r: Fixed)
        ensures
            r.raw == mul_raw(self.raw as int, other.raw as int),
    {
        proof {
            lemma_mul_le(self.raw as int, other.raw as int, u64::MAX as int, u64::MAX as int);
        }
        let p: u128 = (self.raw as u128) * (other.raw as u128) / (SCALE as u128);
        if p > u64::MAX as u128 {
            Fixed { raw: u64::MAX }
        } else {
            Fixed { raw: p as u64 }
        }
    }

    /// Quotient of two fixed-point numbers; zero when `other` is zero.
    pub fn div_fixed(self, other: Fixed) -> (r: Fixed)
        ensures
            r.raw == div_raw(self.raw as int, other.raw as int),
    {
        if other.raw == 0 {
            Fixed { raw: 0 }
        } else {
            proof {
                lemma_mul_le(self.raw as int, SCALE as int, u64::MAX as int, SCALE as int);
            }
            let p: u128 = (self.raw as u128) * (SCALE as u128) / (other.raw as u128);
            if p > u64::MAX as u128 {
                Fixed { raw: u64::MAX }
            } else {
                Fixed { raw: p as u64 }
            }
        }
    }

    /// `self * n / d` for plain integers `n` and `d`; zero when `d` is zero.
    pub fn mul_div(self, n: u64, d: u64) -> (r: Fixed)
        ensures
            r.raw == mul_div_raw(self.raw as int, n as int, d as int),
    {
        if d == 0 {
            Fixed { raw: 0 }
        } else {
            proof {
                lemma_mul_le(self.raw as int, n as int, u64::MAX as int, u64::MAX as int);
            }
            let p: u128 = (self.raw as u128) * (n as u128) / (d as u128);
            if p > u64::MAX as u128 {
                Fixed { raw: u64::MAX }
            } else {
                Fixed { raw: p as u64 }
            }
        }
    }

    /// Fold the sample `x` into the decayed average `self` over a window of
    /// length `len`: the result is `((len - 1) * self + x) / len`.
    pub fn fold(self, x: Fixed, len: u64) -> (r: Fixed)
        requires
            1 <= len,
        ensures
            r.raw == fold_raw(self.raw as int, x.raw as int, len as int),
    {
        proof {
            lemma_mul_le((len - 1) as int, self.raw as int, u64::MAX as int, u64::MAX as int);
            lemma_fold_bound(self.raw as int, x.raw as int, len as int, u64::MAX as int);
        }
        let p: u128 = (((len - 1) as u128) * (self.raw as u128) + (x.raw as u128)) / (len as u128);
        Fixed { raw: p as u64 }
    }

    /// The `e`-th power of `self`, truncating and saturating at each step.
    pub fn powi(self, e: u64) -> (r: Fixed)
        ensures
            r.raw == pow_fixed_raw(self.raw as int, e as nat),
    {
        let mut acc = Fixed::from_micros(SCALE);
        let mut i: u64 = 0;
        while i < e
            invariant
                i <= e,
                acc.raw == pow_fixed_raw(self.raw as int, i as nat),
            decreases e - i,
        {
            acc = acc.mul_fixed(self);
            i = i + 1;
        }
        acc
    }

    /// Saturating sum of two fixed-point numbers.
    pub fn add_sat(self, other: Fixed) -> (r: Fixed)
        ensures
            r.raw == add_sat_raw(self.raw as int, other.raw as int),
    {
        if other.raw <= u64::MAX - self.raw {
            Fixed { raw: self.raw + other.raw }
        } else {
            Fixed { raw: u64::MAX }
        }
    }

    /// Square root of the represented value: the raw result is the integer
    /// square root of `raw * SCALE`.
    pub fn sqrt_fixed(self) -> (r: Fixed)
        ensures
            r.raw == sqrt_raw(self.raw * SCALE),
    {
        proof {
            lemma_mul_le(self.raw as int, SCALE as int, u64::MAX as int, SCALE as int);
        }
        let x: u128 = (self.raw as u128) * (SCALE as u128);
        let s = isqrt(x);
        proof {
            lemma_sqrt_raw_is(x as int, s as int);
        }
        Fixed { raw: s }
    }

    /// Strict order on the represented values.
    pub fn lt(self, other: Fixed) -> (r: bool)
        ensures
            r == (self.raw < other.raw),
    {
        self.raw < other.raw
    }
}

/// Scale the plain integer `n` by the fixed-point factor `f`, truncating,
/// clamped to `usize`.
pub fn scale_int(n: usize, f: Fixed) -> (r: usize)
    ensures
        r == scale_int_raw(n as int, f.raw as int),
{
    proof {
        lemma_mul_le(n as int, f.raw as int, usize::MAX as int, u64::MAX as int);
    }
    let p: u128 = (n as u128) * (f.raw as u128) / (SCALE as u128);
    if p > usize::MAX as u128 {
        usize::MAX
    } else {
        p as usize
    }
}

} // verus!
