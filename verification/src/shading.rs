//! The shading function.
//!
//! A pure mapping from a pixel position, the surface size and the
//! uniform snapshot of the session to one RGBA color: a luminous pearl
//! masked to an anti-aliased ellipse, breathing slowly with elapsed
//! time, with a faint thin-film iridescence toward the rim, two
//! pointer-tracking specular highlights, a convex depth falloff, a
//! hue-rotating rim glow, and a fixed-radius ring shown while the
//! pointer hovers the oval as a drop target.
//!
//! Every value is fixed-point with [`SCALE`] as `1.0`. Out-of-range
//! inputs are clamped at entry, never rejected: the function is total.

use crate::fixed::{
    clamp_fx, div_fx, fx_div, fx_exp_neg, fx_mul, fx_sin, fx_smoothstep, fx_sqrt, fx_wave,
    exp_neg_fx, lemma_mul_le, lemma_mul_nonneg, lemma_smoothstep_bounds, lemma_square_nonneg,
    mod_fx, mul_fx, mul_unit, sin_fx, smoothstep_fx, spec_clamp, sqrt_fx, wave_fx, FX_LIM,
    SCALE,
};
use vstd::prelude::*;

verus! {

/// Half-width of the anti-aliased boundary band around the ellipse
/// edge, and also the alpha threshold below which a pixel is written
/// fully transparent.
pub const EDGE_FX: i64 = 10_000;

/// Period of the idle-breathing sinusoid, in fixed-point seconds:
/// two pi over its angular speed of `0.8`.
pub const T_BREATH_FX: i64 = 7_853_982;

/// Period of the slow angular drift of the iridescence, in fixed-point
/// seconds: two pi over its angular speed of `0.05`.
pub const T_DRIFT_FX: i64 = 125_663_706;

/// Phase offset of the green channel of every iridescent triplet:
/// a third of a full turn.
pub const PHASE_G_FX: i64 = 2_094_395;

/// Phase offset of the blue channel of every iridescent triplet:
/// two thirds of a full turn.
pub const PHASE_B_FX: i64 = 4_188_790;

/// One and a half pi: the pitch of the iridescence angle along the
/// radial coordinate.
pub const PI15_FX: i64 = 4_712_389;

/// One shaded pixel, every channel fixed-point in `[0, 1.0]`. The color
/// channels are premultiplied by the ellipse alpha.
#[derive(Clone, Copy, Debug, PartialEq, Eq, Structural)]
pub struct Rgba {
    pub r: i64,
    pub g: i64,
    pub b: i64,
    pub a: i64,
}

/// The uniform inputs of the shading function, republished by the
/// interaction controller after every event that changes one of them.
/// All values are fixed-point: [`SCALE`] stands for `1.0`.
#[derive(Clone, Copy, Debug, PartialEq, Eq, Structural)]
pub struct DrawOval {
    /// Pointer offset from the window center, each axis in `[-1.0, 1.0]`.
    pub mouse_offset_x: i64,
    /// See `mouse_offset_x`.
    pub mouse_offset_y: i64,
    /// Elapsed session time in fixed-point seconds.
    pub time: i64,
    /// `1.0` exactly when the last known pointer position was inside the
    /// ellipse, else `0`.
    pub hover: i64,
}

/// The radial coordinate of a pixel: the length of the position vector
/// from the surface center, normalized so that the ellipse boundary
/// lies at `1.0`. The normalized position `(u, v)` is clamped into the
/// unit square first.
pub open spec fn spec_dist(u: int, v: int) -> int {
    let s = SCALE as int;
    let px = 2 * spec_clamp(u, 0, s) - s;
    let py = 2 * spec_clamp(v, 0, s) - s;
    fx_sqrt(fx_mul(px, px) + fx_mul(py, py))
}

/// The ellipse mask: fully opaque inside the boundary band, fully
/// transparent outside it, a smooth ramp across it.
pub open spec fn spec_alpha(dist: int) -> int {
    SCALE as int - fx_smoothstep(SCALE as int - EDGE_FX as int, SCALE as int + EDGE_FX as int, dist)
}

/// Every radial coordinate at or beyond the outer edge of the boundary
/// band is fully transparent.
pub proof fn lemma_alpha_transparent_outside(dist: int)
    requires
        dist >= SCALE as int + EDGE_FX as int,
    ensures
        spec_alpha(dist) == 0,
{
    lemma_smoothstep_bounds(SCALE as int - EDGE_FX as int, SCALE as int + EDGE_FX as int, dist);
}

/// Every radial coordinate at or within the inner edge of the boundary
/// band is fully opaque; the softened edge exists only inside the band.
pub proof fn lemma_alpha_opaque_inside(dist: int)
    requires
        dist <= SCALE as int - EDGE_FX as int,
    ensures
        spec_alpha(dist) == SCALE as int,
{
    lemma_smoothstep_bounds(SCALE as int - EDGE_FX as int, SCALE as int + EDGE_FX as int, dist);
}

/// The mask never leaves `[0, 1.0]`.
pub proof fn lemma_alpha_bounds(dist: int)
    ensures
        0 <= spec_alpha(dist) <= SCALE as int,
{
    lemma_smoothstep_bounds(SCALE as int - EDGE_FX as int, SCALE as int + EDGE_FX as int, dist);
}

/// The center pixel has radial coordinate zero.
pub proof fn lemma_center_dist()
    ensures
        spec_dist(500_000, 500_000) == 0,
{
    assert(fx_mul(0, 0) == 0);
    assert(exists|q: int| 0 <= q && #[trigger] (q * q) <= 0 && 0 < (q + 1) * (q + 1)) by {
        let z: int = 0;
        assert(0 <= z && z * z <= 0 && 0 < (z + 1) * (z + 1)) by (nonlinear_arith)
            requires
                z == 0,
        ;
        assert(0 <= z && (z * z) <= 0 && 0 < (z + 1) * (z + 1));
    }
    let q = crate::fixed::sqrt_floor(0);
    crate::fixed::lemma_sqrt_unique(0, q, 0);
}

/// The idle-breathing luminance: `1.0` plus a slow sinusoid of elapsed
/// time, six hundredths strong.
pub open spec fn spec_lum(t: int) -> int {
    SCALE as int + fx_mul(60_000, fx_sin(fx_mul(t % (T_BREATH_FX as int), 800_000)))
}

/// The angle the thin-film triplets are sampled at: a radial pitch plus
/// the pointer offset plus a slow drift of elapsed time.
pub open spec fn spec_angle(dist: int, mx: int, my: int, t: int) -> int {
    fx_mul(dist, PI15_FX as int) + fx_mul(mx, 400_000) + fx_mul(my, 250_000) + fx_mul(
        t % (T_DRIFT_FX as int),
        50_000,
    )
}

/// The iridescence mask: a smooth ramp over the radial band from `0.2`
/// to `0.9`, at most twelve hundredths strong — the film never
/// dominates the pearl.
pub open spec fn spec_irid_mask(dist: int) -> int {
    fx_mul(fx_smoothstep(200_000, 900_000, dist), 120_000)
}

/// Linear blend of `b` over `a` by the fraction `m`.
pub open spec fn spec_mix(a: int, b: int, m: int) -> int {
    a + fx_mul(m, b - a)
}

/// The upper specular highlight: a Gaussian falloff around a spot above
/// center that tracks the pointer, scaled to at most `0.38`.
pub open spec fn spec_upper_highlight(u: int, v: int, mx: int, my: int) -> int {
    let cx = 500_000 + fx_mul(mx, 150_000);
    let cy = 280_000 + fx_mul(my, 80_000);
    let hx = fx_div(u - cx, 380_000);
    let hy = fx_div(v - cy, 180_000);
    let d2 = fx_mul(hx, hx) + fx_mul(hy, hy);
    fx_mul(fx_exp_neg(fx_mul(d2, 2_500_000)), 380_000)
}

/// The lower reflection: a smaller, dimmer Gaussian spot near the
/// bottom that tracks the pointer inversely, scaled to at most `0.10`.
pub open spec fn spec_lower_highlight(u: int, v: int, mx: int) -> int {
    let cx = 500_000 - fx_mul(mx, 80_000);
    let bx = fx_div(u - cx, 280_000);
    let by = fx_div(v - 830_000, 90_000);
    let d2 = fx_mul(bx, bx) + fx_mul(by, by);
    fx_mul(fx_exp_neg(fx_mul(d2, 3_000_000)), 100_000)
}

/// The convex depth factor: `1.0` at the center, decreasing with the
/// radial coordinate as a power-law falloff of exponent `2.5`.
pub open spec fn spec_depth(dist: int) -> int {
    SCALE as int - fx_mul(fx_mul(fx_mul(dist, dist), fx_sqrt(dist)), 120_000)
}

/// The rim band: a ramp over the radial band from `0.82` to `0.98`,
/// tapering back to zero across the anti-aliased edge.
pub open spec fn spec_rim_band(dist: int) -> int {
    fx_mul(
        fx_smoothstep(820_000, 980_000, dist),
        SCALE as int - fx_smoothstep(SCALE as int - EDGE_FX as int, SCALE as int, dist),
    )
}

/// The interaction ring: a narrow band at radial coordinate `0.6`,
/// scaled by the hover flag and a gain of `0.4`.
pub open spec fn spec_ring_amt(dist: int, hv: int) -> int {
    fx_mul(
        fx_mul(
            fx_smoothstep(580_000, 600_000, dist),
            SCALE as int - fx_smoothstep(600_000, 620_000, dist),
        ),
        fx_mul(hv, 400_000),
    )
}

/// One output channel: the pearl shaded by depth, the additive layers
/// summed over it, the total clamped to `[0, 1.0]` and premultiplied by
/// the ellipse alpha.
pub open spec fn spec_channel(
    pearl: int,
    depth: int,
    hi: int,
    lo: int,
    rim: int,
    ring: int,
    alpha: int,
) -> int {
    fx_mul(spec_clamp(fx_mul(pearl, depth) + hi + lo + rim + ring, 0, SCALE as int), alpha)
}

/// The whole shading function over the mathematical model: the channels
/// of the pixel at normalized position `(u, v)` on a `w` by `h` surface
/// under the uniform snapshot `uni`, as `(red, green, blue, alpha)`.
pub open spec fn spec_color(u: int, v: int, w: int, h: int, uni: DrawOval) -> (int, int, int, int) {
    let s = SCALE as int;
    if w <= 0 || h <= 0 {
        (0, 0, 0, 0)
    } else {
        let dist = spec_dist(u, v);
        let alpha = spec_alpha(dist);
        if alpha < EDGE_FX as int {
            (0, 0, 0, 0)
        } else {
            let uu = spec_clamp(u, 0, s);
            let vv = spec_clamp(v, 0, s);
            let mx = spec_clamp(uni.mouse_offset_x as int, -s, s);
            let my = spec_clamp(uni.mouse_offset_y as int, -s, s);
            let hv = spec_clamp(uni.hover as int, 0, s);
            let t = if uni.time < 0 {
                0
            } else {
                uni.time as int
            };
            let lum = spec_lum(t);
            let base_r = fx_mul(960_000, lum);
            let base_g = fx_mul(960_000, lum);
            let base_b = fx_mul(970_000, lum);
            let ang = spec_angle(dist, mx, my, t);
            let mask = spec_irid_mask(dist);
            let pearl_r = spec_mix(base_r, fx_wave(2 * ang), mask);
            let pearl_g = spec_mix(base_g, fx_wave(2 * ang + PHASE_G_FX as int), mask);
            let pearl_b = spec_mix(base_b, fx_wave(2 * ang + PHASE_B_FX as int), mask);
            let hi = spec_upper_highlight(uu, vv, mx, my);
            let lo = spec_lower_highlight(uu, vv, mx);
            let depth = spec_depth(dist);
            let rimb = spec_rim_band(dist);
            let rim_hue = fx_mul(ang, 1_200_000);
            let rim_r = fx_mul(fx_mul(fx_wave(rim_hue), rimb), 180_000);
            let rim_g = fx_mul(fx_mul(fx_wave(rim_hue + PHASE_G_FX as int), rimb), 180_000);
            let rim_b = fx_mul(fx_mul(fx_wave(rim_hue + PHASE_B_FX as int), rimb), 180_000);
            let ring = spec_ring_amt(dist, hv);
            let ring_r = fx_mul(700_000, ring);
            let ring_g = fx_mul(750_000, ring);
            let ring_b = fx_mul(850_000, ring);
            (
                spec_channel(pearl_r, depth, hi, lo, rim_r, ring_r, alpha),
                spec_channel(pearl_g, depth, hi, lo, rim_g, ring_g, alpha),
                spec_channel(pearl_b, depth, hi, lo, rim_b, ring_b, alpha),
                alpha,
            )
        }
    }
}

/// Radial coordinate of the pixel at normalized position `(u, v)`.
pub fn ellipse_distance(u: i64, v: i64) -> (d: i64)
    ensures
        d == spec_dist(u as int, v as int),
        0 <= d <= 1_414_214,
{
    let uu = clamp_fx(u, 0, SCALE);
    let vv = clamp_fx(v, 0, SCALE);
    let px: i64 = 2 * uu - SCALE;
    let py: i64 = 2 * vv - SCALE;
    proof {
        lemma_square_nonneg(px as int);
        lemma_square_nonneg(py as int);
        lemma_mul_le(px as int, px as int, SCALE as int, SCALE as int);
        lemma_mul_le(py as int, py as int, SCALE as int, SCALE as int);
    }
    let d2: i64 = mul_fx(px, px) + mul_fx(py, py);
    let d = sqrt_fx(d2);
    proof {
        assert(d <= 1_414_214) by (nonlinear_arith)
            requires
                0 <= d,
                (d as int) * (d as int) <= 2_000_000_000_000,
        ;
    }
    d
}

/// Ellipse mask of one radial coordinate, with the anti-aliased edge.
pub fn ellipse_alpha(dist: i64) -> (a: i64)
    requires
        -FX_LIM <= dist <= FX_LIM,
    ensures
        a == spec_alpha(dist as int),
        0 <= a <= SCALE,
        dist >= SCALE + EDGE_FX ==> a == 0,
        dist <= SCALE - EDGE_FX ==> a == SCALE,
{
    SCALE - smoothstep_fx(SCALE - EDGE_FX, SCALE + EDGE_FX, dist)
}

/// Idle-breathing luminance at elapsed time `t`.
fn breath_lum(t: i64) -> (r: i64)
    requires
        t >= 0,
    ensures
        r == spec_lum(t as int),
        940_000 <= r <= 1_060_000,
{
    let tr = mod_fx(t, T_BREATH_FX);
    proof {
        lemma_mul_le(tr as int, 800_000, T_BREATH_FX as int, 800_000);
    }
    let arg = mul_fx(tr, 800_000);
    let sn = sin_fx(arg);
    proof {
        lemma_mul_le(60_000, sn as int, 60_000, SCALE as int);
    }
    SCALE + mul_fx(60_000, sn)
}

/// Iridescence sampling angle.
fn film_angle(dist: i64, mx: i64, my: i64, t: i64) -> (r: i64)
    requires
        0 <= dist <= 1_500_000,
        -SCALE <= mx <= SCALE,
        -SCALE <= my <= SCALE,
        t >= 0,
    ensures
        r == spec_angle(dist as int, mx as int, my as int, t as int),
        -1_000_000 <= r <= 15_000_000,
{
    proof {
        lemma_mul_le(dist as int, PI15_FX as int, 1_500_000, PI15_FX as int);
        lemma_mul_nonneg(dist as int, PI15_FX as int);
        lemma_mul_le(mx as int, 400_000, SCALE as int, 400_000);
        lemma_mul_le(my as int, 250_000, SCALE as int, 250_000);
    }
    let a1 = mul_fx(dist, PI15_FX);
    let a2 = mul_fx(mx, 400_000);
    let a3 = mul_fx(my, 250_000);
    let tr = mod_fx(t, T_DRIFT_FX);
    proof {
        lemma_mul_le(tr as int, 50_000, T_DRIFT_FX as int, 50_000);
        lemma_mul_nonneg(tr as int, 50_000);
    }
    let a4 = mul_fx(tr, 50_000);
    a1 + a2 + a3 + a4
}

/// Iridescence mask of one radial coordinate.
fn irid_mask(dist: i64) -> (r: i64)
    requires
        -FX_LIM <= dist <= FX_LIM,
    ensures
        r == spec_irid_mask(dist as int),
        0 <= r <= 120_000,
{
    let ss = smoothstep_fx(200_000, 900_000, dist);
    proof {
        lemma_mul_le(ss as int, 120_000, SCALE as int, 120_000);
        lemma_mul_nonneg(ss as int, 120_000);
    }
    mul_fx(ss, 120_000)
}

/// Film color blended over a base channel by the iridescence mask.
fn mix_fx(a: i64, b: i64, m: i64) -> (r: i64)
    requires
        900_000 <= a <= 1_030_000,
        0 <= b <= SCALE,
        0 <= m <= 120_000,
    ensures
        r == spec_mix(a as int, b as int, m as int),
        750_000 <= r <= 1_160_000,
{
    proof {
        lemma_mul_le(m as int, b as int - a as int, 120_000, 1_030_000);
    }
    a + mul_fx(m, b - a)
}

/// Upper specular highlight at clamped position `(u, v)`.
fn upper_highlight(u: i64, v: i64, mx: i64, my: i64) -> (r: i64)
    requires
        0 <= u <= SCALE,
        0 <= v <= SCALE,
        -SCALE <= mx <= SCALE,
        -SCALE <= my <= SCALE,
    ensures
        r == spec_upper_highlight(u as int, v as int, mx as int, my as int),
        0 <= r <= 380_000,
{
    proof {
        lemma_mul_le(mx as int, 150_000, SCALE as int, 150_000);
        lemma_mul_le(my as int, 80_000, SCALE as int, 80_000);
    }
    let cx = 500_000 + mul_fx(mx, 150_000);
    let cy = 280_000 + mul_fx(my, 80_000);
    let hx = div_fx(u - cx, 380_000);
    let hy = div_fx(v - cy, 180_000);
    proof {
        lemma_square_nonneg(hx as int);
        lemma_square_nonneg(hy as int);
        lemma_mul_le(hx as int, hx as int, 1_800_000, 1_800_000);
        lemma_mul_le(hy as int, hy as int, 4_500_000, 4_500_000);
    }
    let d2 = mul_fx(hx, hx) + mul_fx(hy, hy);
    proof {
        lemma_mul_le(d2 as int, 2_500_000, 24_000_000, 2_500_000);
        lemma_mul_nonneg(d2 as int, 2_500_000);
    }
    let e = exp_neg_fx(mul_fx(d2, 2_500_000));
    proof {
        lemma_mul_le(e as int, 380_000, SCALE as int, 380_000);
        lemma_mul_nonneg(e as int, 380_000);
    }
    mul_fx(e, 380_000)
}

/// Lower reflection at clamped position `(u, v)`.
fn lower_highlight(u: i64, v: i64, mx: i64) -> (r: i64)
    requires
        0 <= u <= SCALE,
        0 <= v <= SCALE,
        -SCALE <= mx <= SCALE,
    ensures
        r == spec_lower_highlight(u as int, v as int, mx as int),
        0 <= r <= 100_000,
{
    proof {
        lemma_mul_le(mx as int, 80_000, SCALE as int, 80_000);
    }
    let cx = 500_000 - mul_fx(mx, 80_000);
    let bx = div_fx(u - cx, 280_000);
    let by = div_fx(v - 830_000, 90_000);
    proof {
        lemma_square_nonneg(bx as int);
        lemma_square_nonneg(by as int);
        lemma_mul_le(bx as int, bx as int, 2_100_000, 2_100_000);
        lemma_mul_le(by as int, by as int, 9_300_000, 9_300_000);
    }
    let d2 = mul_fx(bx, bx) + mul_fx(by, by);
    proof {
        lemma_mul_le(d2 as int, 3_000_000, 95_000_000, 3_000_000);
        lemma_mul_nonneg(d2 as int, 3_000_000);
    }
    let e = exp_neg_fx(mul_fx(d2, 3_000_000));
    proof {
        lemma_mul_le(e as int, 100_000, SCALE as int, 100_000);
        lemma_mul_nonneg(e as int, 100_000);
    }
    mul_fx(e, 100_000)
}

/// Convex depth factor of one radial coordinate.
fn depth_factor(dist: i64) -> (r: i64)
    requires
        0 <= dist <= 1_500_000,
    ensures
        r == spec_depth(dist as int),
        600_000 <= r <= SCALE,
{
    proof {
        lemma_square_nonneg(dist as int);
        lemma_mul_le(dist as int, dist as int, 1_500_000, 1_500_000);
    }
    let p2 = mul_fx(dist, dist);
    let sq = sqrt_fx(dist);
    proof {
        assert((sq as int) * (sq as int) <= 1_500_000_000_000);
        assert(sq <= 1_224_745) by (nonlinear_arith)
            requires
                0 <= sq,
                (sq as int) * (sq as int) <= 1_500_000_000_000,
        ;
        lemma_mul_le(p2 as int, sq as int, 2_250_000, 1_224_745);
        lemma_mul_nonneg(p2 as int, sq as int);
    }
    let p25 = mul_fx(p2, sq);
    proof {
        lemma_mul_le(p25 as int, 120_000, 2_755_676, 120_000);
        lemma_mul_nonneg(p25 as int, 120_000);
    }
    SCALE - mul_fx(p25, 120_000)
}

/// Rim band of one radial coordinate.
fn rim_band(dist: i64) -> (r: i64)
    requires
        -FX_LIM <= dist <= FX_LIM,
    ensures
        r == spec_rim_band(dist as int),
        0 <= r <= SCALE,
{
    let s1 = smoothstep_fx(820_000, 980_000, dist);
    let s2 = smoothstep_fx(SCALE - EDGE_FX, SCALE, dist);
    mul_unit(s1, SCALE - s2)
}

/// Interaction-ring contribution of one radial coordinate and hover flag.
fn ring_amt(dist: i64, hv: i64) -> (r: i64)
    requires
        -FX_LIM <= dist <= FX_LIM,
        0 <= hv <= SCALE,
    ensures
        r == spec_ring_amt(dist as int, hv as int),
        0 <= r <= SCALE,
{
    let b1 = smoothstep_fx(580_000, 600_000, dist);
    let b2 = smoothstep_fx(600_000, 620_000, dist);
    let band = mul_unit(b1, SCALE - b2);
    let gain = mul_unit(hv, 400_000);
    mul_unit(band, gain)
}

/// One composited output channel.
fn channel(pearl: i64, depth: i64, hi: i64, lo: i64, rim: i64, ring: i64, alpha: i64) -> (r: i64)
    requires
        750_000 <= pearl <= 1_160_000,
        600_000 <= depth <= SCALE,
        0 <= hi <= 380_000,
        0 <= lo <= 100_000,
        0 <= rim <= SCALE,
        0 <= ring <= SCALE,
        0 <= alpha <= SCALE,
    ensures
        r == spec_channel(
            pearl as int,
            depth as int,
            hi as int,
            lo as int,
            rim as int,
            ring as int,
            alpha as int,
        ),
        0 <= r <= SCALE,
{
    proof {
        lemma_mul_le(pearl as int, depth as int, 1_160_000, SCALE as int);
        lemma_mul_nonneg(pearl as int, depth as int);
    }
    let shaded = mul_fx(pearl, depth);
    let sum = shaded + hi + lo + rim + ring;
    mul_unit(clamp_fx(sum, 0, SCALE), alpha)
}

/// The shading function: the color of the pixel at normalized position
/// `(u, v)` on a `w` by `h` surface under the uniform snapshot `uni`.
///
/// Total: every input is accepted, out-of-range values are clamped at
/// entry. Every channel of the result lies in `[0, 1.0]`; the alpha
/// channel is the ellipse mask, so the surface is fully transparent on
/// and beyond the outer edge of the boundary band, fully opaque within
/// its inner edge, and empty altogether on a degenerate surface.
pub fn color(u: i64, v: i64, w: i64, h: i64, uni: &DrawOval) -> (c: Rgba)
    ensures
        (c.r as int, c.g as int, c.b as int, c.a as int) == spec_color(
            u as int,
            v as int,
            w as int,
            h as int,
            *uni,
        ),
        0 <= c.r <= SCALE,
        0 <= c.g <= SCALE,
        0 <= c.b <= SCALE,
        0 <= c.a <= SCALE,
        spec_dist(u as int, v as int) >= SCALE + EDGE_FX ==> c.a == 0,
        w > 0 && h > 0 && spec_dist(u as int, v as int) <= SCALE - EDGE_FX ==> c.a == SCALE,
{
    if w <= 0 || h <= 0 {
        proof {
            lemma_alpha_bounds(spec_dist(u as int, v as int));
        }
        return Rgba { r: 0, g: 0, b: 0, a: 0 };
    }
    let dist = ellipse_distance(u, v);
    let alpha = ellipse_alpha(dist);
    if alpha < EDGE_FX {
        return Rgba { r: 0, g: 0, b: 0, a: 0 };
    }
    let uu = clamp_fx(u, 0, SCALE);
    let vv = clamp_fx(v, 0, SCALE);
    let mx = clamp_fx(uni.mouse_offset_x, -SCALE, SCALE);
    let my = clamp_fx(uni.mouse_offset_y, -SCALE, SCALE);
    let hv = clamp_fx(uni.hover, 0, SCALE);
    let t: i64 = if uni.time < 0 {
        0
    } else {
        uni.time
    };
    let lum = breath_lum(t);
    proof {
        lemma_mul_le(960_000, lum as int, 960_000, 1_060_000);
        lemma_mul_le(970_000, lum as int, 970_000, 1_060_000);
        lemma_mul_nonneg(960_000, lum as int);
        lemma_mul_nonneg(970_000, lum as int);
    }
    let base_r = mul_fx(960_000, lum);
    let base_g = mul_fx(960_000, lum);
    let base_b = mul_fx(970_000, lum);
    let ang = film_angle(dist, mx, my, t);
    let mask = irid_mask(dist);
    let film_r = wave_fx(2 * ang);
    let film_g = wave_fx(2 * ang + PHASE_G_FX);
    let film_b = wave_fx(2 * ang + PHASE_B_FX);
    let pearl_r = mix_fx(base_r, film_r, mask);
    let pearl_g = mix_fx(base_g, film_g, mask);
    let pearl_b = mix_fx(base_b, film_b, mask);
    let hi = upper_highlight(uu, vv, mx, my);
    let lo = lower_highlight(uu, vv, mx);
    let depth = depth_factor(dist);
    let rimb = rim_band(dist);
    proof {
        lemma_mul_le(ang as int, 1_200_000, 15_000_000, 1_200_000);
    }
    let rim_hue = mul_fx(ang, 1_200_000);
    let rim_r = mul_unit(mul_unit(wave_fx(rim_hue), rimb), 180_000);
    let rim_g = mul_unit(mul_unit(wave_fx(rim_hue + PHASE_G_FX), rimb), 180_000);
    let rim_b = mul_unit(mul_unit(wave_fx(rim_hue + PHASE_B_FX), rimb), 180_000);
    let ring = ring_amt(dist, hv);
    let ring_r = mul_unit(700_000, ring);
    let ring_g = mul_unit(750_000, ring);
    let ring_b = mul_unit(850_000, ring);
    let out_r = channel(pearl_r, depth, hi, lo, rim_r, ring_r, alpha);
    let out_g = channel(pearl_g, depth, hi, lo, rim_g, ring_g, alpha);
    let out_b = channel(pearl_b, depth, hi, lo, rim_b, ring_b, alpha);
    Rgba { r: out_r, g: out_g, b: out_b, a: alpha }
}

} // verus!
