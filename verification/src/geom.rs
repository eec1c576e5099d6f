//! Normalized-space rectangles and the fixed-point scalar model.
//!
//! A coordinate in normalized space is a fraction of the image's width or
//! height, held as an integer count of `1/SCALE` units; `0` is the image's
//! left/top edge and `SCALE` its right/bottom edge. All divisions in the
//! geometry round toward zero ([`tdiv`]), so every result is pinned exactly.

use vstd::prelude::*;
use vstd::arithmetic::div_mod::lemma_fundamental_div_mod;
use vstd::arithmetic::div_mod::lemma_mod_bound;
use crate::handle::iabs;
use vstd::arithmetic::mul::lemma_mul_inequality;
use vstd::arithmetic::mul::lemma_mul_nonnegative;
use vstd::arithmetic::mul::lemma_mul_upper_bound;

verus! {

/// Number of fixed-point units in one normalized unit (the full image span).
pub const SCALE: i64 = 1_000_000;

/// Largest single-frame drag delta the resize solver accepts, in fixed-point
/// units (a thousand image spans; far beyond any pointer movement).
pub const DELTA_LIMIT: i64 = 1_000_000_000;

/// Truncating division: the quotient of `n` by `d` rounded toward zero.
/// This is the rounding every executable division in the crate performs.
pub open spec fn tdiv(n: int, d: int) -> int
    recommends
        d > 0,
{
    if n >= 0 {
        n / d
    } else {
        -((-n) / d)
    }
}

/// Division of a nonnegative dividend, with the quotient characterized both
/// as `tdiv` and by the fundamental bounds callers use to cap it.
pub fn div_u128(n: u128, d: u128) -> (q: u128)
    requires
        1 <= d,
    ensures
        q == tdiv(n as int, d as int),
        d * q <= n < d * (q + 1),
{
    let q: u128 = n / d;
    proof {
        lemma_fundamental_div_mod(n as int, d as int);
        lemma_mod_bound(n as int, d as int);
        assert(d * q <= n < d * (q + 1)) by (nonlinear_arith)
            requires
                n == d * q + (n as int % d as int),
                0 <= (n as int % d as int),
                (n as int % d as int) < d;
    }
    q
}

/// A crop rectangle in normalized image space. Corners are in fixed-point
/// units of `1/SCALE`; a well-formed rectangle lies inside the unit square
/// with `min` at most `max` on each axis.
#[derive(Clone, Copy, Debug, PartialEq, Eq, Structural)]
pub struct NormRect {
    pub min_x: i64,
    pub min_y: i64,
    pub max_x: i64,
    pub max_y: i64,
}

impl NormRect {
    /// Both corners inside the unit square, ordered on each axis.
    pub open spec fn wf(self) -> bool {
        &&& 0 <= self.min_x <= self.max_x <= SCALE
        &&& 0 <= self.min_y <= self.max_y <= SCALE
    }

    pub open spec fn width(self) -> int {
        self.max_x - self.min_x
    }

    pub open spec fn height(self) -> int {
        self.max_y - self.min_y
    }

    /// The full-image rectangle installed when a new image is loaded.
    pub fn full() -> (r: NormRect)
        ensures
            r == (NormRect { min_x: 0, min_y: 0, max_x: SCALE, max_y: SCALE }),
            r.wf(),
            r.width() == SCALE && r.height() == SCALE,
    {
        NormRect { min_x: 0, min_y: 0, max_x: SCALE, max_y: SCALE }
    }
}

/// A coordinate clamped into the unit span `[0, SCALE]`.
pub open spec fn clamp_unit(v: int) -> int {
    if v < 0 {
        0
    } else if v > SCALE {
        SCALE as int
    } else {
        v
    }
}

/// An unordered pair put in ascending order.
pub open spec fn order2(a: int, b: int) -> (int, int) {
    if a <= b {
        (a, b)
    } else {
        (b, a)
    }
}

/// A candidate rectangle, as the solver proposes it: four coordinates that
/// may lie outside the unit square or be inverted on an axis.
pub open spec fn clamp_candidate(min_x: int, min_y: int, max_x: int, max_y: int) -> NormRect {
    let cx = order2(clamp_unit(min_x), clamp_unit(max_x));
    let cy = order2(clamp_unit(min_y), clamp_unit(max_y));
    NormRect { min_x: cx.0 as i64, min_y: cy.0 as i64, max_x: cx.1 as i64, max_y: cy.1 as i64 }
}

/// What clamping does to a rectangle: both corners clamped into the unit
/// square independently, then the axes repaired by swapping if inverted.
pub open spec fn clamp_rect_spec(r: NormRect) -> NormRect {
    clamp_candidate(r.min_x as int, r.min_y as int, r.max_x as int, r.max_y as int)
}

fn clamp_coord(v: i64) -> (c: i64)
    ensures
        c == clamp_unit(v as int),
{
    if v < 0 {
        0
    } else if v > SCALE {
        SCALE
    } else {
        v
    }
}

/// Clamps both corners into the unit square, then restores `min <= max` on
/// each axis by swapping; the repaired rectangle is always well-formed.
pub fn clamp_rect(r: NormRect) -> (c: NormRect)
    ensures
        c == clamp_rect_spec(r),
        c.wf(),
{
    let mut min_x: i64 = clamp_coord(r.min_x);
    let mut min_y: i64 = clamp_coord(r.min_y);
    let mut max_x: i64 = clamp_coord(r.max_x);
    let mut max_y: i64 = clamp_coord(r.max_y);
    if min_x > max_x {
        let t: i64 = min_x;
        min_x = max_x;
        max_x = t;
    }
    if min_y > max_y {
        let t: i64 = min_y;
        min_y = max_y;
        max_y = t;
    }
    NormRect { min_x, min_y, max_x, max_y }
}

/// Clamping is idempotent: a rectangle that has been clamped once is a fixed
/// point of clamping.
pub proof fn lemma_clamp_rect_idempotent(r: NormRect)
    ensures
        clamp_rect_spec(clamp_rect_spec(r)) == clamp_rect_spec(r),
{
}

/// The x component of a translation delta, shrunk so the moved rectangle
/// stays inside the unit span: first raised so `min` stays at or above `0`,
/// then lowered so `max` stays at or below `SCALE`.
pub open spec fn bounded_delta(lo: int, hi: int, d: int) -> int
    recommends
        0 <= lo <= hi <= SCALE,
{
    let d1 = if lo + d < 0 {
        -lo
    } else {
        d
    };
    if hi + d1 > SCALE {
        SCALE - hi
    } else {
        d1
    }
}

/// Shrinks a translation vector component-wise so the translated rectangle
/// keeps every edge inside `[0, SCALE]`, whatever the requested magnitude.
pub fn bounded_translate(r: &NormRect, dx: i64, dy: i64) -> (d: (i64, i64))
    requires
        r.wf(),
    ensures
        d.0 == bounded_delta(r.min_x as int, r.max_x as int, dx as int),
        d.1 == bounded_delta(r.min_y as int, r.max_y as int, dy as int),
        0 <= r.min_x + d.0 && r.max_x + d.0 <= SCALE,
        0 <= r.min_y + d.1 && r.max_y + d.1 <= SCALE,
{
    let dx1: i64 = if dx < -r.min_x {
        -r.min_x
    } else {
        dx
    };
    let dx2: i64 = if dx1 > SCALE - r.max_x {
        SCALE - r.max_x
    } else {
        dx1
    };
    let dy1: i64 = if dy < -r.min_y {
        -r.min_y
    } else {
        dy
    };
    let dy2: i64 = if dy1 > SCALE - r.max_y {
        SCALE - r.max_y
    } else {
        dy1
    };
    (dx2, dy2)
}

/// What a bounded move does to a rectangle: translation by the shrunk delta.
pub open spec fn move_rect_spec(r: NormRect, dx: int, dy: int) -> NormRect {
    let bx = bounded_delta(r.min_x as int, r.max_x as int, dx);
    let by = bounded_delta(r.min_y as int, r.max_y as int, dy);
    NormRect {
        min_x: (r.min_x + bx) as i64,
        min_y: (r.min_y + by) as i64,
        max_x: (r.max_x + bx) as i64,
        max_y: (r.max_y + by) as i64,
    }
}

/// Translates the rectangle by the requested delta, shrunk so no edge leaves
/// `[0, SCALE]`; width and height are preserved exactly.
pub fn move_rect(r: &NormRect, dx: i64, dy: i64) -> (m: NormRect)
    requires
        r.wf(),
    ensures
        m == move_rect_spec(*r, dx as int, dy as int),
        m.wf(),
        m.width() == r.width() && m.height() == r.height(),
{
    let d: (i64, i64) = bounded_translate(r, dx, dy);
    NormRect {
        min_x: r.min_x + d.0,
        min_y: r.min_y + d.1,
        max_x: r.max_x + d.0,
        max_y: r.max_y + d.1,
    }
}

/// A move keeps every edge inside the unit square, regardless of the
/// magnitude or sign of the requested delta.
pub proof fn lemma_move_stays_in_bounds(r: NormRect, dx: int, dy: int)
    requires
        r.wf(),
    ensures
        move_rect_spec(r, dx, dy).wf(),
        move_rect_spec(r, dx, dy).width() == r.width(),
        move_rect_spec(r, dx, dy).height() == r.height(),
{
}

/// Truncating division on machine integers, by way of the unsigned quotient.
pub(crate) fn tdiv_i128(n: i128, d: i128) -> (q: i128)
    requires
        1 <= d,
        -0x7fffffffffffffffffffffffffffffff <= n,
    ensures
        q == tdiv(n as int, d as int),
        iabs(q as int) <= iabs(n as int),
        0 <= n ==> d * q <= n < d * (q + 1),
{
    if n >= 0 {
        let uq: u128 = div_u128(n as u128, d as u128);
        proof {
            lemma_quotient_le_dividend(uq as int, n as int, d as int);
        }
        uq as i128
    } else {
        let m: i128 = -n;
        let uq: u128 = div_u128(m as u128, d as u128);
        proof {
            lemma_quotient_le_dividend(uq as int, m as int, d as int);
        }
        -(uq as i128)
    }
}

/// A quotient of a nonnegative dividend by a positive divisor is at most the
/// dividend.
pub(crate) proof fn lemma_quotient_le_dividend(q: int, n: int, d: int) by (nonlinear_arith)
    requires
        0 <= q,
        0 <= n,
        1 <= d,
        d * q <= n,
    ensures
        q <= n,
{
}

/// A quotient is capped by any `cap` whose multiple bounds the numerator.
pub(crate) proof fn lemma_quotient_cap(q: int, num: int, den: int, cap: int) by (nonlinear_arith)
    requires
        0 <= q,
        1 <= den,
        den * q <= num,
        num <= cap * den,
    ensures
        q <= cap,
{
}



/// A normalized coordinate taken to screen space by linear interpolation
/// between the ends of the display span.
pub open spec fn norm_to_screen_spec(v: int, lo: int, hi: int) -> int {
    lo + tdiv(v * (hi - lo), SCALE as int)
}

/// A screen coordinate taken to normalized space, the inverse interpolation
/// against the display span.
pub open spec fn screen_to_norm_spec(p: int, lo: int, hi: int) -> int {
    tdiv((p - lo) * (SCALE as int), hi - lo)
}

/// Interpolates a normalized coordinate into the screen span `[lo, hi]`.
pub fn norm_to_screen(v: i64, lo: i64, hi: i64) -> (s: i64)
    requires
        0 <= v <= SCALE,
        -crate::handle::COORD_LIMIT <= lo <= hi <= crate::handle::COORD_LIMIT,
    ensures
        s == norm_to_screen_spec(v as int, lo as int, hi as int),
        lo <= s <= hi,
{
    let span: i64 = hi - lo;
    proof {
        lemma_mul_upper_bound(v as int, SCALE as int, span as int, 2 * crate::handle::COORD_LIMIT);
        lemma_mul_nonnegative(v as int, span as int);
        lemma_mul_inequality(v as int, SCALE as int, span as int);
    }
    let prod: i128 = (v as i128) * (span as i128);
    let q: i128 = tdiv_i128(prod, SCALE as i128);
    proof {
        lemma_quotient_cap(q as int, prod as int, SCALE as int, span as int);
    }
    lo + (q as i64)
}

/// Takes a screen coordinate back to normalized space; the result may lie
/// outside `[0, SCALE]` when the point lies outside the display span.
pub fn screen_to_norm(p: i64, lo: i64, hi: i64) -> (v: i64)
    requires
        -crate::handle::COORD_LIMIT <= p <= crate::handle::COORD_LIMIT,
        -crate::handle::COORD_LIMIT <= lo <= crate::handle::COORD_LIMIT,
        -crate::handle::COORD_LIMIT <= hi <= crate::handle::COORD_LIMIT,
        lo < hi,
    ensures
        v == screen_to_norm_spec(p as int, lo as int, hi as int),
{
    let off: i64 = p - lo;
    proof {
        lemma_abs_product_small(off as int, 2 * crate::handle::COORD_LIMIT, SCALE as int);
    }
    let prod: i128 = (off as i128) * (SCALE as i128);
    let q: i128 = tdiv_i128(prod, (hi - lo) as i128);
    q as i64
}

/// The product of a bounded factor and a positive factor is bounded by the
/// product of the bounds, on both sides.
pub(crate) proof fn lemma_abs_product_small(a: int, abound: int, f: int) by (nonlinear_arith)
    requires
        -abound <= a <= abound,
        0 <= abound,
        1 <= f,
    ensures
        -(abound * f) <= a * f <= abound * f,
{
}

/// The crop rectangle as drawn: both corners interpolated into the display
/// span of the image.
pub open spec fn crop_screen_spec(r: NormRect, disp: crate::handle::ScreenRect) -> crate::handle::ScreenRect {
    crate::handle::ScreenRect {
        min_x: norm_to_screen_spec(r.min_x as int, disp.min_x as int, disp.max_x as int) as i64,
        min_y: norm_to_screen_spec(r.min_y as int, disp.min_y as int, disp.max_y as int) as i64,
        max_x: norm_to_screen_spec(r.max_x as int, disp.min_x as int, disp.max_x as int) as i64,
        max_y: norm_to_screen_spec(r.max_y as int, disp.min_y as int, disp.max_y as int) as i64,
    }
}

/// Interpolates the whole crop rectangle into the image's display span; the
/// result is ordered because interpolation preserves coordinate order.
pub fn crop_screen_rect(r: &NormRect, disp: &crate::handle::ScreenRect) -> (s: crate::handle::ScreenRect)
    requires
        r.wf(),
        disp.wf(),
    ensures
        s == crop_screen_spec(*r, *disp),
        s.wf(),
{
    let min_x: i64 = norm_to_screen(r.min_x, disp.min_x, disp.max_x);
    let min_y: i64 = norm_to_screen(r.min_y, disp.min_y, disp.max_y);
    let max_x: i64 = norm_to_screen(r.max_x, disp.min_x, disp.max_x);
    let max_y: i64 = norm_to_screen(r.max_y, disp.min_y, disp.max_y);
    proof {
        lemma_interp_monotone(r.min_x as int, r.max_x as int, disp.min_x as int, disp.max_x as int);
        lemma_interp_monotone(r.min_y as int, r.max_y as int, disp.min_y as int, disp.max_y as int);
    }
    crate::handle::ScreenRect { min_x, min_y, max_x, max_y }
}

/// Interpolation keeps coordinate order: a smaller normalized coordinate
/// lands at or before a larger one.
pub proof fn lemma_interp_monotone(a: int, b: int, lo: int, hi: int)
    requires
        0 <= a <= b,
        lo <= hi,
    ensures
        norm_to_screen_spec(a, lo, hi) <= norm_to_screen_spec(b, lo, hi),
{
    lemma_mul_inequality(a, b, hi - lo);
    lemma_mul_nonnegative(a, hi - lo);
    vstd::arithmetic::div_mod::lemma_div_is_ordered(a * (hi - lo), b * (hi - lo), SCALE as int);
}

} // verus!
