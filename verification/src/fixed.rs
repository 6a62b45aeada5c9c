//! Fixed-point scalars.
//!
//! A scalar is stored as a signed 64-bit integer counting units of
//! `1 / FX_SCALE`, so the value `raw / 65536` stands for the real number the
//! renderer works with.  Every arithmetic operation has exact semantics, given
//! by a spec function over the raw integers:
//!
//! - addition, subtraction, negation and multiplication saturate at the `i64`
//!   range instead of wrapping;
//! - multiplication and division round toward zero;
//! - division by zero saturates to the largest (for a nonnegative numerator)
//!   or smallest (for a negative numerator) representable value, standing in
//!   for the infinities a floating-point division would produce;
//! - the square root of a negative number is zero.
//!
//! These choices keep every operation total, so the renderer's functions need
//! no numeric preconditions.

use vstd::prelude::*;

verus! {

use vstd::arithmetic::mul::lemma_mul_upper_bound;
use vstd::arithmetic::div_mod::{lemma_div_multiples_vanish, lemma_div_is_ordered};

/// Number of raw units per unit value: the scalar `x` is stored as `x * 65536`.
pub const FX_SCALE: i64 = 65536;

/// The raw representation of two.
pub const FX_TWO: i64 = 131072;

/// The raw representation of four.
pub const FX_FOUR: i64 = 262144;

/// The raw representation of minus one.
pub const FX_NEG_ONE: i64 = -65536;

/// One raw unit: the smallest positive offset, used to step spawned rays
/// off the surface they start from (about a hundred-thousandth of a unit).
pub const FX_EPS: i64 = 1;

/// A fixed-point scalar worth `raw / FX_SCALE`.
#[derive(Clone, Copy, PartialEq, Eq, Structural, Debug)]
pub struct Fx {
    pub raw: i64,
}

/// Saturate an unbounded integer into the `i64` range.
pub open spec fn clip(x: int) -> int {
    if x > i64::MAX {
        i64::MAX as int
    } else if x < i64::MIN {
        i64::MIN as int
    } else {
        x
    }
}

pub open spec fn abs_int(x: int) -> int {
    if x >= 0 {
        x
    } else {
        -x
    }
}

/// Division rounding toward zero, as the hardware divides.
pub open spec fn tdiv(a: int, b: int) -> int
    recommends
        b != 0,
{
    if (a >= 0) == (b >= 0) {
        abs_int(a) / abs_int(b)
    } else {
        -(abs_int(a) / abs_int(b))
    }
}

/// The scalar whose raw representation is `x`, saturated into range.
pub open spec fn fx(x: int) -> Fx {
    Fx { raw: clip(x) as i64 }
}

pub open spec fn fx_add(a: Fx, b: Fx) -> Fx {
    fx(a.raw + b.raw)
}

pub open spec fn fx_sub(a: Fx, b: Fx) -> Fx {
    fx(a.raw - b.raw)
}

pub open spec fn fx_neg(a: Fx) -> Fx {
    fx(-a.raw)
}

pub open spec fn fx_abs(a: Fx) -> Fx {
    fx(abs_int(a.raw as int))
}

pub open spec fn fx_min(a: Fx, b: Fx) -> Fx {
    if a.raw <= b.raw {
        a
    } else {
        b
    }
}

pub open spec fn fx_max(a: Fx, b: Fx) -> Fx {
    if a.raw >= b.raw {
        a
    } else {
        b
    }
}

pub open spec fn fx_mul(a: Fx, b: Fx) -> Fx {
    fx(tdiv(a.raw * b.raw, FX_SCALE as int))
}

pub open spec fn fx_div(a: Fx, b: Fx) -> Fx {
    if b.raw == 0 {
        if a.raw >= 0 {
            Fx { raw: i64::MAX }
        } else {
            Fx { raw: i64::MIN }
        }
    } else {
        fx(tdiv(a.raw * (FX_SCALE as int), b.raw as int))
    }
}

/// Largest `r` with `r * r <= n`.
pub open spec fn isqrt(n: nat) -> nat
    decreases n,
{
    if n == 0 {
        0
    } else {
        let r = isqrt((n - 1) as nat);
        if (r + 1) * (r + 1) <= n {
            r + 1
        } else {
            r
        }
    }
}

/// `x` raised to a nonnegative power, multiplying from the left.
pub open spec fn fx_pow_nat(x: Fx, n: nat) -> Fx
    decreases n,
{
    if n == 0 {
        Fx { raw: FX_SCALE }
    } else {
        fx_mul(fx_pow_nat(x, (n - 1) as nat), x)
    }
}

/// `x` raised to an integer power; a negative power is the reciprocal.
pub open spec fn fx_powi(x: Fx, n: i32) -> Fx {
    if n >= 0 {
        fx_pow_nat(x, n as nat)
    } else {
        fx_div(Fx { raw: FX_SCALE }, fx_pow_nat(x, (-(n as int)) as nat))
    }
}

/// Fixed-point square root: `isqrt(raw * FX_SCALE)`, and zero below zero.
pub open spec fn fx_sqrt(a: Fx) -> Fx {
    if a.raw <= 0 {
        Fx { raw: 0 }
    } else {
        Fx { raw: isqrt((a.raw * FX_SCALE) as nat) as i64 }
    }
}

pub proof fn lemma_isqrt_bounds(n: nat)
    ensures
        isqrt(n) * isqrt(n) <= n,
        n < (isqrt(n) + 1) * (isqrt(n) + 1),
    decreases n,
{
    if n == 0 {
        assert(isqrt(n) == 0);
        assert((isqrt(n) + 1) * (isqrt(n) + 1) == 1) by (nonlinear_arith)
            requires isqrt(n) == 0;
    } else {
        lemma_isqrt_bounds((n - 1) as nat);
        let r = isqrt((n - 1) as nat);
        if (r + 1) * (r + 1) <= n {
            assert(isqrt(n) == r + 1);
            assert((r + 2) * (r + 2) == (r + 1) * (r + 1) + 2 * r + 3) by (nonlinear_arith);
        } else {
            assert(isqrt(n) == r);
        }
        assert(isqrt(n) * isqrt(n) <= n);
        assert(n < (isqrt(n) + 1) * (isqrt(n) + 1));
    }
}

pub proof fn lemma_isqrt_unique(n: nat, r: nat)
    requires
        r * r <= n,
        n < (r + 1) * (r + 1),
    ensures
        r == isqrt(n),
{
    lemma_isqrt_bounds(n);
    let s = isqrt(n);
    if r < s {
        lemma_mul_upper_bound(r + 1 as int, s as int, r + 1 as int, s as int);
        assert(s * s <= n);
    } else if s < r {
        lemma_mul_upper_bound(s + 1 as int, r as int, s + 1 as int, r as int);
        assert((s + 1) * (s + 1) <= r * r);
    }
}

pub proof fn lemma_abs_mul(x: int, y: int)
    ensures
        abs_int(x * y) == abs_int(x) * abs_int(y),
        (x * y >= 0) == ((x >= 0) == (y >= 0)) || x * y == 0,
{
    if x >= 0 && y >= 0 {
        assert(x * y >= 0) by (nonlinear_arith)
            requires x >= 0 && y >= 0;
    } else if x < 0 && y < 0 {
        assert(x * y > 0 && x * y == (-x) * (-y)) by (nonlinear_arith)
            requires x < 0 && y < 0;
    } else if x < 0 {
        assert(x * y <= 0 && -(x * y) == (-x) * y) by (nonlinear_arith)
            requires x < 0 && y >= 0;
    } else {
        assert(x * y <= 0 && -(x * y) == x * (-y)) by (nonlinear_arith)
            requires x >= 0 && y < 0;
    }
}

/// Multiplying by one is exact, whatever the operand.
pub proof fn lemma_fx_mul_one(a: Fx)
    ensures
        fx_mul(a, Fx { raw: FX_SCALE }) == a,
{
    lemma_abs_mul(a.raw as int, FX_SCALE as int);
    assert((FX_SCALE as int) * abs_int(a.raw as int) == abs_int(a.raw as int) * (FX_SCALE as int))
        by (nonlinear_arith);
    lemma_div_multiples_vanish(abs_int(a.raw as int), FX_SCALE as int);
}

/// Multiplying by minus one is exact negation (saturated at the extreme).
pub proof fn lemma_fx_mul_neg_one(a: Fx)
    ensures
        fx_mul(a, Fx { raw: FX_NEG_ONE }) == fx_neg(a),
{
    lemma_abs_mul(a.raw as int, FX_NEG_ONE as int);
    assert(abs_int(FX_NEG_ONE as int) == FX_SCALE as int);
    assert((FX_SCALE as int) * abs_int(a.raw as int) == abs_int(a.raw as int) * (FX_SCALE as int))
        by (nonlinear_arith);
    lemma_div_multiples_vanish(abs_int(a.raw as int), FX_SCALE as int);
}

/// Multiplying by zero gives zero.
pub proof fn lemma_fx_mul_zero(a: Fx)
    ensures
        fx_mul(a, Fx { raw: 0 }) == (Fx { raw: 0 }),
{
    assert(a.raw * 0 == 0) by (nonlinear_arith);
}

/// Negating both factors leaves the product unchanged (away from the one
/// value negation cannot represent).
pub proof fn lemma_fx_mul_neg_neg(a: Fx, b: Fx)
    requires
        a.raw > i64::MIN,
        b.raw > i64::MIN,
    ensures
        fx_mul(fx_neg(a), fx_neg(b)) == fx_mul(a, b),
{
    assert((-(a.raw as int)) * (-(b.raw as int)) == a.raw * b.raw) by (nonlinear_arith);
}

/// The scalar sits in the middle half-range: two such values can pass
/// through an addition and a subtraction without saturating.
pub open spec fn fx_bounded(a: Fx) -> bool {
    -0x2000_0000_0000_0000 <= a.raw <= 0x2000_0000_0000_0000
}

/// Adding and subtracting a bounded scalar cancels exactly, for any `x`
/// within twice the bounded range.
pub proof fn lemma_fx_cancel(x: Fx, p: Fx)
    requires
        -0x4000_0000_0000_0000 <= x.raw <= 0x4000_0000_0000_0000,
        fx_bounded(p),
    ensures
        fx_sub(fx_add(x, p), p) == x,
        fx_add(fx_sub(x, p), p) == x,
{
}

/// Halving keeps well clear of the representable extremes.
pub proof fn lemma_fx_half_bound(a: Fx)
    ensures
        abs_int(fx_div(a, Fx { raw: FX_TWO }).raw as int) <= 0x4000_0000_0000_0000,
{
    lemma_abs_mul(a.raw as int, FX_SCALE as int);
    lemma_div_is_ordered(
        abs_int(a.raw as int) * (FX_SCALE as int),
        0x8000_0000_0000_0000 * (FX_SCALE as int),
        FX_TWO as int,
    );
    lemma_mul_upper_bound(abs_int(a.raw as int), 0x8000_0000_0000_0000, FX_SCALE as int, FX_SCALE as int);
    assert(0x8000_0000_0000_0000int * 0x1_0000 == 0x2_0000int * 0x4000_0000_0000_0000)
        by (nonlinear_arith);
    lemma_div_multiples_vanish(0x4000_0000_0000_0000, 0x2_0000);
}

/// Saturate a wide intermediate into `i64`.
fn clip_i128(x: i128) -> (r: i64)
    ensures
        r as int == clip(x as int),
{
    if x > i64::MAX as i128 {
        i64::MAX
    } else if x < i64::MIN as i128 {
        i64::MIN
    } else {
        x as i64
    }
}

/// Magnitude of an `i64`, widened so `i64::MIN` needs no special case.
fn abs_mag(x: i64) -> (r: u128)
    ensures
        r as int == abs_int(x as int),
{
    if x < 0 {
        (-(x as i128)) as u128
    } else {
        x as u128
    }
}

fn isqrt_u128(n: u128) -> (r: u128)
    requires
        n < 0x4000_0000_0000_0000_0000_0000_0000_0000u128,
    ensures
        r as nat == isqrt(n as nat),
{
    let mut lo: u128 = 0;
    let mut hi: u128 = 0x8000_0000_0000_0000u128;
    proof {
        assert(hi * hi == 0x4000_0000_0000_0000_0000_0000_0000_0000nat) by (nonlinear_arith)
            requires hi == 0x8000_0000_0000_0000u128;
    }
    while lo + 1 < hi
        invariant
            lo < hi,
            hi <= 0x8000_0000_0000_0000u128,
            lo * lo <= n,
            n < hi * hi,
        decreases hi - lo,
    {
        let mid = lo + (hi - lo) / 2;
        proof {
            lemma_mul_upper_bound(mid as int, hi as int - 1, mid as int, hi as int - 1);
            assert((hi - 1) * (hi - 1) < 0x1_0000_0000_0000_0000_0000_0000_0000_0000int) by (nonlinear_arith)
                requires hi <= 0x8000_0000_0000_0000u128;
        }
        if mid * mid <= n {
            lo = mid;
        } else {
            hi = mid;
        }
    }
    proof {
        lemma_isqrt_unique(n as nat, lo as nat);
    }
    lo
}

impl Fx {
    /// The scalar worth zero.
    pub fn zero() -> (r: Fx)
        ensures
            r == (Fx { raw: 0 }),
    {
        Fx { raw: 0 }
    }

    /// The scalar worth one.
    pub fn one() -> (r: Fx)
        ensures
            r == (Fx { raw: FX_SCALE }),
    {
        Fx { raw: FX_SCALE }
    }

    /// The scalar worth the integer `x`.
    pub fn from_int(x: i32) -> (r: Fx)
        ensures
            r == fx(x * FX_SCALE),
    {
        Fx { raw: (x as i64) * FX_SCALE }
    }

    pub fn add(self, o: Fx) -> (r: Fx)
        ensures
            r == fx_add(self, o),
    {
        Fx { raw: clip_i128(self.raw as i128 + o.raw as i128) }
    }

    pub fn sub(self, o: Fx) -> (r: Fx)
        ensures
            r == fx_sub(self, o),
    {
        Fx { raw: clip_i128(self.raw as i128 - o.raw as i128) }
    }

    pub fn neg(self) -> (r: Fx)
        ensures
            r == fx_neg(self),
    {
        Fx { raw: clip_i128(-(self.raw as i128)) }
    }

    pub fn abs(self) -> (r: Fx)
        ensures
            r == fx_abs(self),
    {
        if self.raw < 0 {
            Fx { raw: clip_i128(-(self.raw as i128)) }
        } else {
            self
        }
    }

    pub fn min(self, o: Fx) -> (r: Fx)
        ensures
            r == fx_min(self, o),
    {
        if self.raw <= o.raw {
            self
        } else {
            o
        }
    }

    pub fn max(self, o: Fx) -> (r: Fx)
        ensures
            r == fx_max(self, o),
    {
        if self.raw >= o.raw {
            self
        } else {
            o
        }
    }

    pub fn mul(self, o: Fx) -> (r: Fx)
        ensures
            r == fx_mul(self, o),
    {
        let am = abs_mag(self.raw);
        let bm = abs_mag(o.raw);
        proof {
            lemma_abs_mul(self.raw as int, o.raw as int);
            lemma_mul_upper_bound(am as int, 0x8000_0000_0000_0000, bm as int, 0x8000_0000_0000_0000);
            assert(0x8000_0000_0000_0000int * 0x8000_0000_0000_0000
                < 0x1_0000_0000_0000_0000_0000_0000_0000_0000int) by (nonlinear_arith);
        }
        let q = (am * bm) / (FX_SCALE as u128);
        let neg = (self.raw < 0) != (o.raw < 0);
        if neg {
            Fx { raw: clip_i128(-(q as i128)) }
        } else {
            Fx { raw: clip_i128(q as i128) }
        }
    }

    pub fn div(self, o: Fx) -> (r: Fx)
        ensures
            r == fx_div(self, o),
    {
        if o.raw == 0 {
            if self.raw >= 0 {
                Fx { raw: i64::MAX }
            } else {
                Fx { raw: i64::MIN }
            }
        } else {
            let am = abs_mag(self.raw);
            let bm = abs_mag(o.raw);
            proof {
                lemma_abs_mul(self.raw as int, FX_SCALE as int);
                lemma_mul_upper_bound(am as int, 0x8000_0000_0000_0000, FX_SCALE as int, FX_SCALE as int);
                assert(0x8000_0000_0000_0000int * 0x1_0000
                    < 0x1_0000_0000_0000_0000_0000_0000_0000_0000int) by (nonlinear_arith);
            }
            let q = (am * (FX_SCALE as u128)) / bm;
            let neg = (self.raw < 0) != (o.raw < 0);
            if neg {
                Fx { raw: clip_i128(-(q as i128)) }
            } else {
                Fx { raw: clip_i128(q as i128) }
            }
        }
    }

    pub fn powi(self, n: i32) -> (r: Fx)
        ensures
            r == fx_powi(self, n),
    {
        let m: u64 = if n < 0 {
            (-(n as i64)) as u64
        } else {
            n as u64
        };
        let mut acc = Fx { raw: FX_SCALE };
        let mut i: u64 = 0;
        while i < m
            invariant
                i <= m,
                acc == fx_pow_nat(self, i as nat),
            decreases m - i,
        {
            acc = acc.mul(self);
            i = i + 1;
        }
        if n < 0 {
            Fx { raw: FX_SCALE }.div(acc)
        } else {
            acc
        }
    }

    pub fn sqrt(self) -> (r: Fx)
        ensures
            r == fx_sqrt(self),
    {
        if self.raw <= 0 {
            Fx { raw: 0 }
        } else {
            proof {
                lemma_mul_upper_bound(self.raw as int, 0x7fff_ffff_ffff_ffff, FX_SCALE as int, 0x1_0000);
                assert(0x7fff_ffff_ffff_ffffint * 0x1_0000
                    < 0x4000_0000_0000_0000_0000_0000_0000_0000int) by (nonlinear_arith);
            }
            let n = (self.raw as u128) * (FX_SCALE as u128);
            let s = isqrt_u128(n);
            proof {
                lemma_isqrt_bounds(n as nat);
                let r = isqrt(n as nat);
                assert(r < 0x8000_0000_0000_0000) by (nonlinear_arith)
                    requires
                        r * r <= n as nat,
                        (n as nat) < 0x4000_0000_0000_0000_0000_0000_0000_0000nat;
            }
            Fx { raw: s as i64 }
        }
    }
}

} // verus!
