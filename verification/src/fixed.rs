//! Fixed-point arithmetic on `i64`.
//!
//! One unit is one millionth: the value [`SCALE`] stands for the real
//! number `1.0`. Every operation has an exact specification mirror, a
//! `spec fn` over `int` with the same truncating rounding as the
//! executable code, so that contracts can pin results down to the unit.

use vstd::prelude::*;

verus! {

/// Number of fixed-point units in `1.0`.
pub const SCALE: i64 = 1_000_000;

/// Largest magnitude accepted by [`mul_fx`]: the product of two values
/// bounded by this still fits in an `i64`.
pub const FX_LIM: i64 = 3_000_000_000;

/// Truncating (round-toward-zero) division, `b > 0`.
///
/// On non-negative `a` this is plain Euclidean division; on negative `a`
/// it rounds toward zero, as hardware division of signed integers does.
pub open spec fn sdiv(a: int, b: int) -> int {
    if a >= 0 {
        a / b
    } else {
        -((-a) / b)
    }
}

/// Fixed-point product: `a * b` scaled back down by [`SCALE`].
pub open spec fn fx_mul(a: int, b: int) -> int {
    sdiv(a * b, SCALE as int)
}

/// Fixed-point quotient: `a / b` kept in fixed-point units, `b > 0`.
pub open spec fn fx_div(a: int, b: int) -> int {
    sdiv(a * (SCALE as int), b)
}

/// `x` forced into `[lo, hi]`.
pub open spec fn spec_clamp(x: int, lo: int, hi: int) -> int {
    if x < lo {
        lo
    } else if x > hi {
        hi
    } else {
        x
    }
}

/// Bounds on a product from bounds on its factors.
pub proof fn lemma_mul_le(a: int, b: int, aa: int, bb: int)
    by (nonlinear_arith)
    requires
        -aa <= a <= aa,
        -bb <= b <= bb,
        0 <= aa,
        0 <= bb,
    ensures
        -(aa * bb) <= a * b <= aa * bb,
{
}

/// A product of non-negative factors is non-negative.
pub proof fn lemma_mul_nonneg(a: int, b: int)
    by (nonlinear_arith)
    requires
        0 <= a,
        0 <= b,
    ensures
        0 <= a * b,
{
}

/// A square is never negative.
pub proof fn lemma_square_nonneg(a: int)
    by (nonlinear_arith)
    ensures
        0 <= a * a,
{
}

/// Truncating division of an `i64` by a positive `i64`.
pub fn div_trunc(a: i64, b: i64) -> (r: i64)
    requires
        b > 0,
        a > i64::MIN,
    ensures
        r == sdiv(a as int, b as int),
{
    if a >= 0 {
        ((a as u64) / (b as u64)) as i64
    } else {
        let n = -a;
        -(((n as u64) / (b as u64)) as i64)
    }
}

/// Fixed-point multiplication; both factors bounded by [`FX_LIM`] so the
/// intermediate product fits in an `i64`.
pub fn mul_fx(a: i64, b: i64) -> (r: i64)
    requires
        -FX_LIM <= a <= FX_LIM,
        -FX_LIM <= b <= FX_LIM,
    ensures
        r == fx_mul(a as int, b as int),
{
    proof {
        lemma_mul_le(a as int, b as int, FX_LIM as int, FX_LIM as int);
    }
    let p: i64 = a * b;
    div_trunc(p, SCALE)
}

/// Fixed-point multiplication of two values in `[0, SCALE]`; the result
/// stays in `[0, SCALE]`.
pub fn mul_unit(a: i64, b: i64) -> (r: i64)
    requires
        0 <= a <= SCALE,
        0 <= b <= SCALE,
    ensures
        r == fx_mul(a as int, b as int),
        0 <= r <= SCALE,
{
    proof {
        lemma_mul_le(a as int, b as int, SCALE as int, SCALE as int);
        lemma_mul_nonneg(a as int, b as int);
        lemma_mul_le(a as int, SCALE as int, SCALE as int, SCALE as int);
    }
    let r = mul_fx(a, b);
    proof {
        lemma_mul_le(b as int, 1, SCALE as int, 1);
    }
    assert(a * b <= SCALE * SCALE) by (nonlinear_arith)
        requires
            0 <= a <= SCALE,
            0 <= b <= SCALE,
            SCALE == 1_000_000,
    ;
    r
}

/// `x` forced into `[lo, hi]`.
pub fn clamp_fx(x: i64, lo: i64, hi: i64) -> (r: i64)
    requires
        lo <= hi,
    ensures
        r == spec_clamp(x as int, lo as int, hi as int),
        lo <= r <= hi,
{
    if x < lo {
        lo
    } else if x > hi {
        hi
    } else {
        x
    }
}

/// The smooth Hermite ramp: `0` at or below `e0`, `1.0` at or above `e1`,
/// and `t * t * (3 - 2 * t)` on the normalized position `t` in between.
pub open spec fn fx_smoothstep(e0: int, e1: int, x: int) -> int {
    let t = spec_clamp(sdiv((x - e0) * (SCALE as int), e1 - e0), 0, SCALE as int);
    fx_mul(fx_mul(t, t), 3 * (SCALE as int) - 2 * t)
}

/// The ramp stays in `[0, 1.0]`, is `0` at or below `e0` and `1.0` at or
/// above `e1`.
pub proof fn lemma_smoothstep_bounds(e0: int, e1: int, x: int)
    requires
        e0 < e1,
    ensures
        0 <= fx_smoothstep(e0, e1, x) <= SCALE,
        x <= e0 ==> fx_smoothstep(e0, e1, x) == 0,
        x >= e1 ==> fx_smoothstep(e0, e1, x) == SCALE,
{
    let s = SCALE as int;
    let num = (x - e0) * s;
    let d = e1 - e0;
    let t = spec_clamp(sdiv(num, d), 0, s);
    if x >= e1 {
        assert((x - e0) * s >= (e1 - e0) * s) by (nonlinear_arith)
            requires
                x - e0 >= e1 - e0,
                s == 1_000_000,
        ;
        vstd::arithmetic::div_mod::lemma_div_is_ordered(d * s, num, d);
        vstd::arithmetic::div_mod::lemma_div_multiples_vanish(s, d);
        assert(sdiv(num, d) >= s);
    }
    if x <= e0 {
        if num < 0 {
            assert(sdiv(num, d) <= 0);
        }
    }
    let tt = t * t;
    lemma_mul_nonneg(t, t);
    lemma_mul_le(t, t, s, s);
    let t2 = fx_mul(t, t);
    let f2 = 3 * s - 2 * t;
    lemma_mul_nonneg(t2, f2);
    assert(tt <= s * t) by (nonlinear_arith)
        requires
            tt == t * t,
            0 <= t <= s,
    ;
    assert(t2 * s <= tt);
    assert(t2 * f2 * s <= tt * f2) by (nonlinear_arith)
        requires
            t2 * s <= tt,
            f2 >= 0,
    ;
    assert(tt * f2 <= s * s * s) by (nonlinear_arith)
        requires
            tt == t * t,
            f2 == 3 * s - 2 * t,
            0 <= t <= s,
            s == 1_000_000,
    ;
    assert(t2 * f2 <= s * s);
}

/// Smooth Hermite ramp from `e0` to `e1`, evaluated at `x`.
pub fn smoothstep_fx(e0: i64, e1: i64, x: i64) -> (r: i64)
    requires
        -FX_LIM <= e0 < e1 <= FX_LIM,
        -FX_LIM <= x <= FX_LIM,
    ensures
        r == fx_smoothstep(e0 as int, e1 as int, x as int),
        0 <= r <= SCALE,
        x <= e0 ==> r == 0,
        x >= e1 ==> r == SCALE,
{
    let num: i64 = (x - e0) * SCALE;
    let d: i64 = e1 - e0;
    let t = clamp_fx(div_trunc(num, d), 0, SCALE);
    let t2 = mul_unit(t, t);
    let f2: i64 = 3 * SCALE - 2 * t;
    let r = mul_fx(t2, f2);
    proof {
        lemma_smoothstep_bounds(e0 as int, e1 as int, x as int);
    }
    r
}

/// Remainder of a non-negative value modulo a positive one.
pub fn mod_fx(a: i64, m: i64) -> (r: i64)
    requires
        a >= 0,
        m > 0,
    ensures
        r == (a as int) % (m as int),
        0 <= r < m,
{
    ((a as u64) % (m as u64)) as i64
}

/// Fixed-point division by a positive divisor.
pub fn div_fx(a: i64, b: i64) -> (r: i64)
    requires
        -FX_LIM <= a <= FX_LIM,
        0 < b,
    ensures
        r == fx_div(a as int, b as int),
{
    let num: i64 = a * SCALE;
    div_trunc(num, b)
}

/// The integer square root: the largest `r` with `r * r <= n`.
pub open spec fn sqrt_floor(n: int) -> int {
    choose|r: int| 0 <= r && #[trigger] (r * r) <= n && n < (r + 1) * (r + 1)
}

/// Two integers that both satisfy the square-root property are equal.
pub proof fn lemma_sqrt_unique(n: int, a: int, b: int)
    by (nonlinear_arith)
    requires
        0 <= a,
        0 <= b,
        a * a <= n < (a + 1) * (a + 1),
        b * b <= n < (b + 1) * (b + 1),
    ensures
        a == b,
{
}

/// Integer square root by bisection.
pub fn isqrt64(n: u64) -> (r: u64)
    requires
        n <= 4_000_000_000_000,
    ensures
        r as int == sqrt_floor(n as int),
        (r as int) * (r as int) <= n as int,
        (n as int) < (r as int + 1) * (r as int + 1),
        r <= 2_000_000,
{
    let mut lo: u64 = 0;
    let mut hi: u64 = 2_000_000;
    proof {
        assert((hi as int + 1) * (hi as int + 1) > n as int);
    }
    while lo < hi
        invariant
            lo <= hi <= 2_000_000,
            (lo as int) * (lo as int) <= n as int,
            (n as int) < (hi as int + 1) * (hi as int + 1),
            n <= 4_000_000_000_000,
        decreases hi - lo,
    {
        let mid: u64 = lo + (hi - lo + 1) / 2;
        proof {
            lemma_mul_le(mid as int, mid as int, 2_000_000, 2_000_000);
        }
        if mid * mid <= n {
            lo = mid;
        } else {
            hi = mid - 1;
        }
    }
    proof {
        let r = lo as int;
        assert(0 <= r && r * r <= n as int && (n as int) < (r + 1) * (r + 1));
        assert(exists|q: int| 0 <= q && #[trigger] (q * q) <= n as int && (n as int) < (q + 1) * (q + 1));
        let q = sqrt_floor(n as int);
        lemma_sqrt_unique(n as int, q, r);
    }
    lo
}

/// Square root of a fixed-point value: `sqrt(a / SCALE)` in units of
/// `1 / SCALE`, rounded down.
pub open spec fn fx_sqrt(a: int) -> int {
    sqrt_floor(a * (SCALE as int))
}

/// Fixed-point square root of a value in `[0, 4.0]`.
pub fn sqrt_fx(a: i64) -> (r: i64)
    requires
        0 <= a <= 4_000_000,
    ensures
        r == fx_sqrt(a as int),
        0 <= r <= 2_000_000,
        (r as int) * (r as int) <= (a as int) * (SCALE as int),
        (a as int) * (SCALE as int) < (r as int + 1) * (r as int + 1),
{
    let n: u64 = (a as u64) * (SCALE as u64);
    proof {
        assert(n == (a as int) * (SCALE as int));
        assert(n <= 4_000_000_000_000);
    }
    isqrt64(n) as i64
}

/// Fixed-point pi.
pub const PI_FX: i64 = 3_141_593;

/// Fixed-point two pi, the period of [`fx_sin`].
pub const TWO_PI_FX: i64 = 6_283_185;

/// Fixed-point `5 * pi * pi`, the constant term of the rational sine
/// approximation's denominator.
pub const FIVE_PI_SQ_FX: i64 = 49_348_020;

/// Rational approximation of the sine on `[0, pi]`:
/// `16 y (pi - y) / (5 pi^2 - 4 y (pi - y))`, forced into `[0, 1.0]`.
pub open spec fn fx_sin_half(y: int) -> int {
    let q = fx_mul(y, PI_FX as int - y);
    spec_clamp(
        sdiv(16 * q * (SCALE as int), FIVE_PI_SQ_FX as int - 4 * q),
        0,
        SCALE as int,
    )
}

/// The fixed-point sine: the argument reduced into one period, the first
/// half-period mapped through [`fx_sin_half`], the second negated.
pub open spec fn fx_sin(x: int) -> int {
    let m = x % (TWO_PI_FX as int);
    if m <= PI_FX as int {
        fx_sin_half(m)
    } else {
        -fx_sin_half(m - PI_FX as int)
    }
}

/// Sine approximation on the first half-period.
fn sin_half_fx(y: i64) -> (r: i64)
    requires
        0 <= y <= PI_FX,
    ensures
        r == fx_sin_half(y as int),
        0 <= r <= SCALE,
{
    let q = mul_fx(y, PI_FX - y);
    proof {
        lemma_mul_nonneg(y as int, PI_FX as int - y as int);
        assert(4 * ((y as int) * (PI_FX as int - y as int))
            <= (PI_FX as int) * (PI_FX as int)) by (nonlinear_arith)
            requires
                0 <= y <= PI_FX,
                PI_FX == 3_141_593,
        ;
        assert((PI_FX as int) * (PI_FX as int) == 9_869_606_577_649);
        assert(q <= 2_467_401);
    }
    let num: i64 = 16 * q * SCALE;
    let den: i64 = FIVE_PI_SQ_FX - 4 * q;
    clamp_fx(div_trunc(num, den), 0, SCALE)
}

/// Fixed-point sine; the argument may cover many periods.
pub fn sin_fx(x: i64) -> (r: i64)
    requires
        -4_000_000_000_000 <= x <= 4_000_000_000_000,
    ensures
        r == fx_sin(x as int),
        -SCALE <= r <= SCALE,
{
    let m: i64 = if x >= 0 {
        ((x as u64) % (TWO_PI_FX as u64)) as i64
    } else {
        let n: u64 = ((-x) as u64) % (TWO_PI_FX as u64);
        if n == 0 {
            0
        } else {
            TWO_PI_FX - (n as i64)
        }
    };
    proof {
        assert(m == (x as int) % (TWO_PI_FX as int)) by {
            let t = TWO_PI_FX as int;
            if x >= 0 {
                assert((x as u64) % (TWO_PI_FX as u64) == (x as int) % t);
            } else {
                let n0 = (-(x as int)) % t;
                vstd::arithmetic::div_mod::lemma_mod_add_multiples_vanish(-(x as int), t);
                assert((-(x as int)) == t * ((-(x as int)) / t) + n0) by {
                    vstd::arithmetic::div_mod::lemma_fundamental_div_mod(-(x as int), t);
                }
                assert((x as int) % t == (if n0 == 0 { 0int } else { t - n0 })) by {
                    let qq = (-(x as int)) / t;
                    if n0 == 0 {
                        assert((x as int) == t * (-qq));
                        vstd::arithmetic::div_mod::lemma_mod_multiples_basic(-qq, t);
                    } else {
                        assert((x as int) == t * (-qq - 1) + (t - n0));
                        vstd::arithmetic::div_mod::lemma_fundamental_div_mod_converse_mod(
                            x as int,
                            t,
                            -qq - 1,
                            t - n0,
                        );
                    }
                }
            }
        }
    }
    if m <= PI_FX {
        sin_half_fx(m)
    } else {
        -sin_half_fx(m - PI_FX)
    }
}

/// Four terms of the alternating series for `exp(-x)`, forced into
/// `[0, 1.0]`; accurate for small `x`.
pub open spec fn fx_exp_small(x: int) -> int {
    let x2 = fx_mul(x, x);
    let x3 = fx_mul(x2, x);
    let x4 = fx_mul(x3, x);
    spec_clamp(
        SCALE as int - x + sdiv(x2, 2) - sdiv(x3, 6) + sdiv(x4, 24),
        0,
        SCALE as int,
    )
}

/// `exp(-k)`: zero for large `k`, else the series evaluated at `k / 16`
/// and squared four times.
pub open spec fn fx_exp_neg(k: int) -> int {
    if k >= 14_000_000 {
        0
    } else {
        let e = fx_exp_small(sdiv(k, 16));
        let e2 = fx_mul(e, e);
        let e4 = fx_mul(e2, e2);
        let e8 = fx_mul(e4, e4);
        fx_mul(e8, e8)
    }
}

/// Series step of the fixed-point `exp(-x)`.
fn exp_small_fx(x: i64) -> (r: i64)
    requires
        0 <= x <= SCALE,
    ensures
        r == fx_exp_small(x as int),
        0 <= r <= SCALE,
{
    let x2 = mul_unit(x, x);
    let x3 = mul_unit(x2, x);
    let x4 = mul_unit(x3, x);
    let s: i64 = SCALE - x + div_trunc(x2, 2) - div_trunc(x3, 6) + div_trunc(x4, 24);
    clamp_fx(s, 0, SCALE)
}

/// Fixed-point `exp(-k)` for `k >= 0`.
pub fn exp_neg_fx(k: i64) -> (r: i64)
    requires
        0 <= k <= FX_LIM,
    ensures
        r == fx_exp_neg(k as int),
        0 <= r <= SCALE,
{
    if k >= 14_000_000 {
        0
    } else {
        let e = exp_small_fx(div_trunc(k, 16));
        let e2 = mul_unit(e, e);
        let e4 = mul_unit(e2, e2);
        let e8 = mul_unit(e4, e4);
        mul_unit(e8, e8)
    }
}

/// `0.5 + 0.5 * sin(x)`: a sine wave shifted into `[0, 1.0]`, the shape of
/// every hue channel of the iridescent layers.
pub open spec fn fx_wave(x: int) -> int {
    500_000 + fx_mul(500_000, fx_sin(x))
}

/// Sine wave shifted into `[0, 1.0]`.
pub fn wave_fx(x: i64) -> (r: i64)
    requires
        -4_000_000_000_000 <= x <= 4_000_000_000_000,
    ensures
        r == fx_wave(x as int),
        0 <= r <= SCALE,
{
    let s = sin_fx(x);
    proof {
        lemma_mul_le(500_000, s as int, 500_000, SCALE as int);
    }
    let h = mul_fx(500_000, s);
    500_000 + h
}

} // verus!
