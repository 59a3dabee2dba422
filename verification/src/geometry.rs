//! Ellipse geometry in device pixels.
//!
//! The window is borderless and entirely filled by one axis-aligned
//! ellipse: its center is the window midpoint, its half-extents the
//! window half-width and half-height. The hit test and the pointer
//! normalization below are the two derivations every input handler
//! shares.

use crate::fixed::{clamp_fx, div_trunc, sdiv, spec_clamp, SCALE};
use vstd::prelude::*;

verus! {

/// Largest coordinate or window extent, in pixels, that the geometry
/// functions accept; far beyond any real display, and small enough that
/// the cross-multiplied hit test fits in an `i128`.
pub const COORD_LIM: i64 = 1_000_000_000;

/// Whether the point `(x, y)` lies inside the ellipse inscribed in a
/// window of `w` by `h` pixels.
///
/// The real-number test is `(dx / cx)^2 + (dy / cy)^2 <= 1` against the
/// center `(cx, cy) = (w / 2, h / 2)`; both sides here are multiplied by
/// `(w * h)^2`, which keeps the predicate in integers and makes it false
/// by definition whenever a window extent is zero or negative.
pub open spec fn oval_hit(x: int, y: int, w: int, h: int) -> bool {
    &&& w > 0
    &&& h > 0
    &&& {
        let dx = 2 * x - w;
        let dy = 2 * y - h;
        dx * dx * (h * h) + dy * dy * (w * w) <= (w * h) * (w * h)
    }
}

/// Ellipse hit test: is this point inside the oval?
pub fn point_in_oval(x: i64, y: i64, w: i64, h: i64) -> (r: bool)
    requires
        -COORD_LIM <= x <= COORD_LIM,
        -COORD_LIM <= y <= COORD_LIM,
        -COORD_LIM <= w <= COORD_LIM,
        -COORD_LIM <= h <= COORD_LIM,
    ensures
        r == oval_hit(x as int, y as int, w as int, h as int),
        w <= 0 || h <= 0 ==> r == false,
{
    if w <= 0 || h <= 0 {
        return false;
    }
    let dx: i128 = (2 * x - w) as i128;
    let dy: i128 = (2 * y - h) as i128;
    let wi: i128 = w as i128;
    let hi: i128 = h as i128;
    proof {
        crate::fixed::lemma_mul_le(dx as int, dx as int, 3_000_000_000, 3_000_000_000);
        crate::fixed::lemma_mul_le(dy as int, dy as int, 3_000_000_000, 3_000_000_000);
        crate::fixed::lemma_mul_le(wi as int, hi as int, 1_000_000_000, 1_000_000_000);
        crate::fixed::lemma_mul_le(wi as int, wi as int, 1_000_000_000, 1_000_000_000);
        crate::fixed::lemma_mul_le(hi as int, hi as int, 1_000_000_000, 1_000_000_000);
    }
    let dx2: i128 = dx * dx;
    let dy2: i128 = dy * dy;
    let ww: i128 = wi * wi;
    let hh: i128 = hi * hi;
    let wh: i128 = wi * hi;
    proof {
        crate::fixed::lemma_mul_le(
            dx2 as int,
            hh as int,
            9_000_000_000_000_000_000,
            1_000_000_000_000_000_000,
        );
        crate::fixed::lemma_mul_le(
            dy2 as int,
            ww as int,
            9_000_000_000_000_000_000,
            1_000_000_000_000_000_000,
        );
        crate::fixed::lemma_mul_le(
            wh as int,
            wh as int,
            1_000_000_000_000_000_000,
            1_000_000_000_000_000_000,
        );
    }
    let lhs: i128 = dx2 * hh + dy2 * ww;
    let rhs: i128 = wh * wh;
    lhs <= rhs
}

/// Reflection symmetry of the hit test: the mirror image of a point
/// through the window center gets the same answer.
pub proof fn lemma_oval_hit_reflected(x: int, y: int, w: int, h: int)
    ensures
        oval_hit(x, y, w, h) == oval_hit(w - x, h - y, w, h),
{
    let dx = 2 * x - w;
    let dy = 2 * y - h;
    let rx = 2 * (w - x) - w;
    let ry = 2 * (h - y) - h;
    assert(rx * rx * (h * h) == dx * dx * (h * h) && ry * ry * (w * w) == dy * dy * (w * w))
        by (nonlinear_arith)
        requires
            dx == 2 * x - w,
            dy == 2 * y - h,
            rx == 2 * (w - x) - w,
            ry == 2 * (h - y) - h,
    ;
}

/// A window with a zero-or-negative extent contains no point at all.
pub proof fn lemma_oval_hit_degenerate(x: int, y: int, w: int, h: int)
    requires
        w <= 0 || h <= 0,
    ensures
        !oval_hit(x, y, w, h),
{
}

/// A device coordinate `p` mapped into `[-1.0, 1.0]` of the window
/// extent it lies in: `-1.0` at the leading edge, `0` at the center,
/// `1.0` at the trailing edge, and clamped for points outside.
pub open spec fn norm_offset(p: int, extent: int) -> int {
    spec_clamp(sdiv((2 * p - extent) * (SCALE as int), extent), -(SCALE as int), SCALE as int)
}

/// Pointer coordinate normalized against one window extent.
pub fn normalize_offset(p: i64, extent: i64) -> (r: i64)
    requires
        0 < extent <= COORD_LIM,
        -COORD_LIM <= p <= COORD_LIM,
    ensures
        r == norm_offset(p as int, extent as int),
        -SCALE <= r <= SCALE,
{
    let num: i64 = (2 * p - extent) * SCALE;
    clamp_fx(div_trunc(num, extent), -SCALE, SCALE)
}

} // verus!
