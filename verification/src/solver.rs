//! The drag constraint solver.
//!
//! Given the current rectangle, the active handle, and the frame's drag
//! delta, the solver proposes a candidate rectangle: free resizes move the
//! handle's own coordinates; under a locked ratio a corner drag projects the
//! drag target onto the ratio direction (a least-squares resize about the
//! fixed anchor corner) and an edge drag drives one dimension, deriving the
//! other about the rectangle's center line. The candidate is then clamped
//! into the unit square and repaired, so the result is always well-formed.
//! Clamping runs after the ratio computation, so a resize pushed against
//! the image boundary may deviate from the locked ratio there.

use vstd::prelude::*;
use crate::aspect::ImageDims;
use crate::aspect::Ratio;
use crate::geom::DELTA_LIMIT;
use crate::geom::NormRect;
use crate::geom::SCALE;
use crate::geom::clamp_candidate;
use crate::geom::clamp_unit;
use crate::geom::div_u128;
use crate::geom::move_rect_spec;
use crate::geom::tdiv;
use crate::geom::tdiv_i128;
use crate::geom::lemma_quotient_cap;
use crate::handle::ResizeHandle;
use crate::handle::iabs;
use vstd::arithmetic::mul::lemma_mul_nonnegative;
use vstd::arithmetic::mul::lemma_mul_strictly_positive;
use vstd::arithmetic::mul::lemma_mul_upper_bound;

verus! {

/// Largest screen-pixel span of the displayed image on either axis.
pub const DISPLAY_LIMIT: i64 = 1_000_000;

/// A candidate rectangle before clamping: four coordinates that may stick
/// out of the unit square or be inverted on an axis.
pub struct Candidate {
    pub min_x: int,
    pub min_y: int,
    pub max_x: int,
    pub max_y: int,
}

/// An unconstrained resize: each corner handle moves its own corner, each
/// edge handle its own coordinate; `Center` translates by the delta shrunk
/// to keep the rectangle inside the unit square.
pub open spec fn free_candidate(r: NormRect, h: ResizeHandle, dx: int, dy: int) -> Candidate {
    match h {
        ResizeHandle::TopLeft => (Candidate {
            min_x: r.min_x + dx,
            min_y: r.min_y + dy,
            max_x: r.max_x as int,
            max_y: r.max_y as int,
        }),
        ResizeHandle::TopRight => (Candidate {
            min_x: r.min_x as int,
            min_y: r.min_y + dy,
            max_x: r.max_x + dx,
            max_y: r.max_y as int,
        }),
        ResizeHandle::BottomLeft => (Candidate {
            min_x: r.min_x + dx,
            min_y: r.min_y as int,
            max_x: r.max_x as int,
            max_y: r.max_y + dy,
        }),
        ResizeHandle::BottomRight => (Candidate {
            min_x: r.min_x as int,
            min_y: r.min_y as int,
            max_x: r.max_x + dx,
            max_y: r.max_y + dy,
        }),
        ResizeHandle::Top => (Candidate {
            min_x: r.min_x as int,
            min_y: r.min_y + dy,
            max_x: r.max_x as int,
            max_y: r.max_y as int,
        }),
        ResizeHandle::Bottom => (Candidate {
            min_x: r.min_x as int,
            min_y: r.min_y as int,
            max_x: r.max_x as int,
            max_y: r.max_y + dy,
        }),
        ResizeHandle::Left => (Candidate {
            min_x: r.min_x + dx,
            min_y: r.min_y as int,
            max_x: r.max_x as int,
            max_y: r.max_y as int,
        }),
        ResizeHandle::Right => (Candidate {
            min_x: r.min_x as int,
            min_y: r.min_y as int,
            max_x: r.max_x + dx,
            max_y: r.max_y as int,
        }),
        ResizeHandle::Center => moved_candidate(r, dx, dy),
    }
}

/// Translation by the bounds-shrunk delta, as a candidate.
pub open spec fn moved_candidate(r: NormRect, dx: int, dy: int) -> Candidate {
    let m = move_rect_spec(r, dx, dy);
    Candidate { min_x: m.min_x as int, min_y: m.min_y as int, max_x: m.max_x as int, max_y: m.max_y as int }
}

/// The corner held fixed during a corner drag: diagonally opposite the
/// dragged handle.
pub open spec fn corner_anchor(r: NormRect, h: ResizeHandle) -> (int, int) {
    match h {
        ResizeHandle::TopLeft => (r.max_x as int, r.max_y as int),
        ResizeHandle::TopRight => (r.min_x as int, r.max_y as int),
        ResizeHandle::BottomLeft => (r.max_x as int, r.min_y as int),
        _ => (r.min_x as int, r.min_y as int),
    }
}

/// The dragged corner itself, before the delta is applied.
pub open spec fn corner_moving(r: NormRect, h: ResizeHandle) -> (int, int) {
    match h {
        ResizeHandle::TopLeft => (r.min_x as int, r.min_y as int),
        ResizeHandle::TopRight => (r.max_x as int, r.min_y as int),
        ResizeHandle::BottomLeft => (r.min_x as int, r.max_y as int),
        _ => (r.max_x as int, r.max_y as int),
    }
}

/// Numerator of the projected width: the anchor-to-target vector, taken to
/// screen space and projected onto the ratio direction `(pw, ph)`, scaled by
/// the common positive denominator `(pw^2 + ph^2) * dw`.
pub open spec fn proj_w_num(raw_w: int, raw_h: int, pw: int, ph: int, dw: int, dh: int) -> int {
    (raw_w * dw * pw + raw_h * dh * ph) * pw
}

/// Denominator of the projected width.
pub open spec fn proj_w_den(pw: int, ph: int, dw: int) -> int {
    (pw * pw + ph * ph) * dw
}

/// Numerator of the projected height, over denominator `(pw^2 + ph^2) * dh`.
pub open spec fn proj_h_num(raw_w: int, raw_h: int, pw: int, ph: int, dw: int, dh: int) -> int {
    (raw_w * dw * pw + raw_h * dh * ph) * ph
}

/// Denominator of the projected height.
pub open spec fn proj_h_den(pw: int, ph: int, dh: int) -> int {
    (pw * pw + ph * ph) * dh
}

/// The width the locked corner drag yields, in fixed-point units.
pub open spec fn proj_width(raw_w: int, raw_h: int, pw: int, ph: int, dw: int, dh: int) -> int {
    tdiv(proj_w_num(raw_w, raw_h, pw, ph, dw, dh), proj_w_den(pw, ph, dw))
}

/// The height the locked corner drag yields, in fixed-point units.
pub open spec fn proj_height(raw_w: int, raw_h: int, pw: int, ph: int, dw: int, dh: int) -> int {
    tdiv(proj_h_num(raw_w, raw_h, pw, ph, dw, dh), proj_h_den(pw, ph, dh))
}

/// Width of the rectangle a locked corner drag proposes: the unconstrained
/// target corner's offset from the anchor, component-wise absolute.
pub open spec fn raw_span_w(r: NormRect, h: ResizeHandle, dx: int) -> int {
    iabs(corner_moving(r, h).0 + dx - corner_anchor(r, h).0)
}

/// Height counterpart of [`raw_span_w`].
pub open spec fn raw_span_h(r: NormRect, h: ResizeHandle, dy: int) -> int {
    iabs(corner_moving(r, h).1 + dy - corner_anchor(r, h).1)
}

/// A locked corner drag: the anchor stays fixed and the rectangle is rebuilt
/// outward from it by the projected width and height, in the dragged
/// handle's quadrant.
pub open spec fn corner_candidate(
    r: NormRect,
    h: ResizeHandle,
    dx: int,
    dy: int,
    pw: int,
    ph: int,
    dw: int,
    dh: int,
) -> Candidate {
    let ax = corner_anchor(r, h).0;
    let ay = corner_anchor(r, h).1;
    let w = proj_width(raw_span_w(r, h, dx), raw_span_h(r, h, dy), pw, ph, dw, dh);
    let hh = proj_height(raw_span_w(r, h, dx), raw_span_h(r, h, dy), pw, ph, dw, dh);
    match h {
        ResizeHandle::TopLeft => (Candidate {
            min_x: ax - w,
            min_y: ay - hh,
            max_x: ax,
            max_y: ay,
        }),
        ResizeHandle::TopRight => (Candidate {
            min_x: ax,
            min_y: ay - hh,
            max_x: ax + w,
            max_y: ay,
        }),
        ResizeHandle::BottomLeft => (Candidate {
            min_x: ax - w,
            min_y: ay,
            max_x: ax,
            max_y: ay + hh,
        }),
        _ => (Candidate { min_x: ax, min_y: ay, max_x: ax + w, max_y: ay + hh }),
    }
}

/// A locked edge drag: the dragged edge drives its own dimension freely; the
/// other dimension is derived from the normalized ratio `an : ad` and laid
/// out about the rectangle's prior center line, keeping the derived span
/// exact and the center within half a unit.
pub open spec fn edge_candidate(
    r: NormRect,
    h: ResizeHandle,
    dx: int,
    dy: int,
    an: int,
    ad: int,
) -> Candidate {
    match h {
        ResizeHandle::Left | ResizeHandle::Right => {
            let min_x = if h is Left {
                r.min_x + dx
            } else {
                r.min_x as int
            };
            let max_x = if h is Right {
                r.max_x + dx
            } else {
                r.max_x as int
            };
            let new_h = tdiv((max_x - min_x) * ad, an);
            let min_y = tdiv(r.min_y + r.max_y - new_h, 2);
            Candidate { min_x, min_y, max_x, max_y: min_y + new_h }
        },
        _ => {
            let min_y = if h is Top {
                r.min_y + dy
            } else {
                r.min_y as int
            };
            let max_y = if h is Bottom {
                r.max_y + dy
            } else {
                r.max_y as int
            };
            let new_w = tdiv((max_y - min_y) * an, ad);
            let min_x = tdiv(r.min_x + r.max_x - new_w, 2);
            Candidate { min_x, min_y, max_x: min_x + new_w, max_y }
        },
    }
}

/// The candidate one drag frame proposes, before clamping: free per-handle
/// motion when no ratio is locked; under a locked ratio, projection for
/// corners, center-line derivation for edges, and a bounded translation for
/// `Center`. `an : ad` is the target ratio rescaled into normalized space.
pub open spec fn drag_candidate(
    r: NormRect,
    h: ResizeHandle,
    dx: int,
    dy: int,
    target: Option<Ratio>,
    dims: ImageDims,
    dw: int,
    dh: int,
) -> Candidate {
    match target {
        None => free_candidate(r, h, dx, dy),
        Some(t) => match h {
            ResizeHandle::Center => moved_candidate(r, dx, dy),
            ResizeHandle::TopLeft
            | ResizeHandle::TopRight
            | ResizeHandle::BottomLeft
            | ResizeHandle::BottomRight => corner_candidate(
                r,
                h,
                dx,
                dy,
                t.w as int,
                t.h as int,
                dw,
                dh,
            ),
            _ => edge_candidate(r, h, dx, dy, t.w * dims.h, t.h * dims.w),
        },
    }
}

/// A candidate that already lies inside the unit square, ordered on both
/// axes; clamping leaves such a candidate untouched.
pub open spec fn candidate_wf(c: Candidate) -> bool {
    &&& 0 <= c.min_x <= c.max_x <= SCALE
    &&& 0 <= c.min_y <= c.max_y <= SCALE
}

/// What one drag frame does to the rectangle: the candidate, clamped into
/// the unit square and repaired.
pub open spec fn resolve_drag_spec(
    r: NormRect,
    h: ResizeHandle,
    dx: int,
    dy: int,
    target: Option<Ratio>,
    dims: ImageDims,
    dw: int,
    dh: int,
) -> NormRect {
    let c = drag_candidate(r, h, dx, dy, target, dims, dw, dh);
    clamp_candidate(c.min_x, c.min_y, c.max_x, c.max_y)
}

/// The exact projection satisfies the locked ratio in pixel space: as long
/// as the display spans the image at one scale on both axes
/// (`dh * iw == dw * ih`), the unrounded projected width and height, taken
/// back to pixels, stand in the ratio `pw : ph` exactly. The executable
/// solver keeps each dimension within one fixed-point unit of this exact
/// value (rounding toward zero); clamping at the image boundary may then
/// still deviate from the ratio, which is the accepted trade-off.
#[verifier::rlimit(100)]
pub proof fn lemma_corner_projection_ratio_exact(
    raw_w: int,
    raw_h: int,
    pw: int,
    ph: int,
    dw: int,
    dh: int,
    iw: int,
    ih: int,
)
    requires
        0 <= raw_w,
        0 <= raw_h,
        1 <= pw,
        1 <= ph,
        1 <= dw,
        1 <= dh,
        1 <= iw,
        1 <= ih,
        dh * iw == dw * ih,
    ensures
        proj_w_num(raw_w, raw_h, pw, ph, dw, dh) * iw * proj_h_den(pw, ph, dh) * ph == proj_h_num(
            raw_w,
            raw_h,
            pw,
            ph,
            dw,
            dh,
        ) * ih * proj_w_den(pw, ph, dw) * pw,
{
    let n = raw_w * dw * pw + raw_h * dh * ph;
    let d = pw * pw + ph * ph;
    let common = n * d * pw * ph;
    let common_b = n * d * ph * pw;
    assert((n * pw) * iw * (d * dh) * ph == common * (iw * dh)) by (nonlinear_arith)
        requires
            common == n * d * pw * ph;
    assert((n * ph) * ih * (d * dw) * pw == common_b * (ih * dw)) by (nonlinear_arith)
        requires
            common_b == n * d * ph * pw;
    assert(common_b == common) by (nonlinear_arith)
        requires
            common_b == n * d * ph * pw,
            common == n * d * pw * ph;
    assert(iw * dh == ih * dw) by (nonlinear_arith)
        requires
            dh * iw == dw * ih;
}

/// As long as a locked corner drag's candidate stays inside the unit
/// square, clamping changes nothing: the resolved rectangle is the
/// candidate itself, and its width and height are exactly the projected
/// dimensions — each the ratio-exact rational of
/// [`lemma_corner_projection_ratio_exact`] rounded toward zero.
pub proof fn lemma_locked_corner_drag_unclamped(
    r: NormRect,
    h: ResizeHandle,
    dx: int,
    dy: int,
    t: Ratio,
    dims: ImageDims,
    dw: int,
    dh: int,
)
    requires
        h is TopLeft || h is TopRight || h is BottomLeft || h is BottomRight,
        candidate_wf(corner_candidate(r, h, dx, dy, t.w as int, t.h as int, dw, dh)),
    ensures
        resolve_drag_spec(r, h, dx, dy, Some(t), dims, dw, dh).min_x == corner_candidate(
            r,
            h,
            dx,
            dy,
            t.w as int,
            t.h as int,
            dw,
            dh,
        ).min_x,
        resolve_drag_spec(r, h, dx, dy, Some(t), dims, dw, dh).min_y == corner_candidate(
            r,
            h,
            dx,
            dy,
            t.w as int,
            t.h as int,
            dw,
            dh,
        ).min_y,
        resolve_drag_spec(r, h, dx, dy, Some(t), dims, dw, dh).max_x == corner_candidate(
            r,
            h,
            dx,
            dy,
            t.w as int,
            t.h as int,
            dw,
            dh,
        ).max_x,
        resolve_drag_spec(r, h, dx, dy, Some(t), dims, dw, dh).max_y == corner_candidate(
            r,
            h,
            dx,
            dy,
            t.w as int,
            t.h as int,
            dw,
            dh,
        ).max_y,
        resolve_drag_spec(r, h, dx, dy, Some(t), dims, dw, dh).width() == proj_width(
            raw_span_w(r, h, dx),
            raw_span_h(r, h, dy),
            t.w as int,
            t.h as int,
            dw,
            dh,
        ),
        resolve_drag_spec(r, h, dx, dy, Some(t), dims, dw, dh).height() == proj_height(
            raw_span_w(r, h, dx),
            raw_span_h(r, h, dy),
            t.w as int,
            t.h as int,
            dw,
            dh,
        ),
{
}

/// The projection numerator is bounded by the drag span times the
/// denominator: the projected span never exceeds the sum of the screen-space
/// spans of the unconstrained drag.
proof fn lemma_projection_bound(rsx: int, rsy: int, pa: int, pb: int, dd: int) by (nonlinear_arith)
    requires
        0 <= rsx,
        0 <= rsy,
        1 <= pa,
        1 <= pb,
        1 <= dd,
    ensures
        (rsx * pa + rsy * pb) * pa <= (rsx + rsy) * ((pa * pa + pb * pb) * dd),
{
}

/// Projected width and height of a locked corner drag, each the exact
/// rational projection rounded toward zero.
fn corner_dims(raw_w: i64, raw_h: i64, pw: i64, ph: i64, dw: i64, dh: i64) -> (wh: (i64, i64))
    requires
        0 <= raw_w <= SCALE + DELTA_LIMIT,
        0 <= raw_h <= SCALE + DELTA_LIMIT,
        1 <= pw <= crate::aspect::RATIO_LIMIT,
        1 <= ph <= crate::aspect::RATIO_LIMIT,
        1 <= dw <= DISPLAY_LIMIT,
        1 <= dh <= DISPLAY_LIMIT,
    ensures
        wh.0 == proj_width(raw_w as int, raw_h as int, pw as int, ph as int, dw as int, dh as int),
        wh.1 == proj_height(raw_w as int, raw_h as int, pw as int, ph as int, dw as int, dh as int),
        0 <= wh.0 <= raw_w * dw + raw_h * dh,
        0 <= wh.1 <= raw_w * dw + raw_h * dh,
{
    proof {
        lemma_mul_upper_bound(raw_w as int, SCALE + DELTA_LIMIT, dw as int, DISPLAY_LIMIT as int);
        lemma_mul_upper_bound(raw_h as int, SCALE + DELTA_LIMIT, dh as int, DISPLAY_LIMIT as int);
        lemma_mul_nonnegative(raw_w as int, dw as int);
        lemma_mul_nonnegative(raw_h as int, dh as int);
    }
    let rsx: u128 = (raw_w as u128) * (dw as u128);
    let rsy: u128 = (raw_h as u128) * (dh as u128);
    proof {
        lemma_mul_upper_bound(rsx as int, 1_001_000_000_000_000, pw as int, crate::aspect::RATIO_LIMIT as int);
        lemma_mul_upper_bound(rsy as int, 1_001_000_000_000_000, ph as int, crate::aspect::RATIO_LIMIT as int);
        lemma_mul_nonnegative(rsx as int, pw as int);
        lemma_mul_nonnegative(rsy as int, ph as int);
    }
    let n: u128 = rsx * (pw as u128) + rsy * (ph as u128);
    proof {
        lemma_mul_upper_bound(pw as int, crate::aspect::RATIO_LIMIT as int, pw as int, crate::aspect::RATIO_LIMIT as int);
        lemma_mul_upper_bound(ph as int, crate::aspect::RATIO_LIMIT as int, ph as int, crate::aspect::RATIO_LIMIT as int);
        lemma_mul_nonnegative(pw as int, pw as int);
        lemma_mul_nonnegative(ph as int, ph as int);
    }
    let d: u128 = (pw as u128) * (pw as u128) + (ph as u128) * (ph as u128);
    proof {
        lemma_mul_upper_bound(n as int, 2_002_000_000_000_000_000_000, pw as int, crate::aspect::RATIO_LIMIT as int);
        lemma_mul_upper_bound(n as int, 2_002_000_000_000_000_000_000, ph as int, crate::aspect::RATIO_LIMIT as int);
        lemma_mul_upper_bound(d as int, 2_000_000_000_000, dw as int, DISPLAY_LIMIT as int);
        lemma_mul_upper_bound(d as int, 2_000_000_000_000, dh as int, DISPLAY_LIMIT as int);
        lemma_mul_nonnegative(n as int, pw as int);
        lemma_mul_nonnegative(n as int, ph as int);
        lemma_mul_strictly_positive(pw as int, pw as int);
        lemma_mul_strictly_positive(ph as int, ph as int);
        assert(1 <= d * dw && 1 <= d * dh) by (nonlinear_arith)
            requires
                1 <= d,
                1 <= dw,
                1 <= dh;
    }
    let wq: u128 = div_u128(n * (pw as u128), d * (dw as u128));
    let hq: u128 = div_u128(n * (ph as u128), d * (dh as u128));
    proof {
        lemma_projection_bound(rsx as int, rsy as int, pw as int, ph as int, dw as int);
        lemma_projection_bound(rsy as int, rsx as int, ph as int, pw as int, dh as int);
        assert(rsy * ph + rsx * pw == rsx * pw + rsy * ph);
        lemma_quotient_cap(wq as int, n * pw, d * dw, rsx + rsy);
        lemma_quotient_cap(hq as int, n * ph, d * dh, rsx + rsy);
    }
    (wq as i64, hq as i64)
}

/// Clamps one wide candidate coordinate into the unit span.
fn clamp_coord_wide(v: i128) -> (c: i64)
    ensures
        c == clamp_unit(v as int),
{
    if v < 0 {
        0
    } else if v > (SCALE as i128) {
        SCALE
    } else {
        v as i64
    }
}

/// Clamps a wide candidate into the unit square and repairs the axis order,
/// yielding a well-formed rectangle.
fn clamp_wide(min_x: i128, min_y: i128, max_x: i128, max_y: i128) -> (c: NormRect)
    ensures
        c == clamp_candidate(min_x as int, min_y as int, max_x as int, max_y as int),
        c.wf(),
{
    let mut cmin_x: i64 = clamp_coord_wide(min_x);
    let mut cmin_y: i64 = clamp_coord_wide(min_y);
    let mut cmax_x: i64 = clamp_coord_wide(max_x);
    let mut cmax_y: i64 = clamp_coord_wide(max_y);
    if cmin_x > cmax_x {
        let t: i64 = cmin_x;
        cmin_x = cmax_x;
        cmax_x = t;
    }
    if cmin_y > cmax_y {
        let t: i64 = cmin_y;
        cmin_y = cmax_y;
        cmax_y = t;
    }
    NormRect { min_x: cmin_x, min_y: cmin_y, max_x: cmax_x, max_y: cmax_y }
}

/// The unconstrained candidate for one drag frame, in wide coordinates.
fn free_candidate_exec(r: &NormRect, h: ResizeHandle, dx: i64, dy: i64) -> (c: (i128, i128, i128, i128))
    requires
        r.wf(),
        -DELTA_LIMIT <= dx <= DELTA_LIMIT,
        -DELTA_LIMIT <= dy <= DELTA_LIMIT,
    ensures
        c.0 == free_candidate(*r, h, dx as int, dy as int).min_x,
        c.1 == free_candidate(*r, h, dx as int, dy as int).min_y,
        c.2 == free_candidate(*r, h, dx as int, dy as int).max_x,
        c.3 == free_candidate(*r, h, dx as int, dy as int).max_y,
{
    match h {
        ResizeHandle::TopLeft => (
            (r.min_x + dx) as i128,
            (r.min_y + dy) as i128,
            r.max_x as i128,
            r.max_y as i128,
        ),
        ResizeHandle::TopRight => (
            r.min_x as i128,
            (r.min_y + dy) as i128,
            (r.max_x + dx) as i128,
            r.max_y as i128,
        ),
        ResizeHandle::BottomLeft => (
            (r.min_x + dx) as i128,
            r.min_y as i128,
            r.max_x as i128,
            (r.max_y + dy) as i128,
        ),
        ResizeHandle::BottomRight => (
            r.min_x as i128,
            r.min_y as i128,
            (r.max_x + dx) as i128,
            (r.max_y + dy) as i128,
        ),
        ResizeHandle::Top => (
            r.min_x as i128,
            (r.min_y + dy) as i128,
            r.max_x as i128,
            r.max_y as i128,
        ),
        ResizeHandle::Bottom => (
            r.min_x as i128,
            r.min_y as i128,
            r.max_x as i128,
            (r.max_y + dy) as i128,
        ),
        ResizeHandle::Left => (
            (r.min_x + dx) as i128,
            r.min_y as i128,
            r.max_x as i128,
            r.max_y as i128,
        ),
        ResizeHandle::Right => (
            r.min_x as i128,
            r.min_y as i128,
            (r.max_x + dx) as i128,
            r.max_y as i128,
        ),
        ResizeHandle::Center => {
            let m: NormRect = crate::geom::move_rect(r, dx, dy);
            (m.min_x as i128, m.min_y as i128, m.max_x as i128, m.max_y as i128)
        },
    }
}

/// The locked corner-drag candidate, in wide coordinates.
fn corner_candidate_exec(
    r: &NormRect,
    h: ResizeHandle,
    dx: i64,
    dy: i64,
    t: &Ratio,
    dw: i64,
    dh: i64,
) -> (c: (i128, i128, i128, i128))
    requires
        r.wf(),
        -DELTA_LIMIT <= dx <= DELTA_LIMIT,
        -DELTA_LIMIT <= dy <= DELTA_LIMIT,
        t.wf(),
        1 <= dw <= DISPLAY_LIMIT,
        1 <= dh <= DISPLAY_LIMIT,
        h is TopLeft || h is TopRight || h is BottomLeft || h is BottomRight,
    ensures
        c.0 == corner_candidate(*r, h, dx as int, dy as int, t.w as int, t.h as int, dw as int, dh as int).min_x,
        c.1 == corner_candidate(*r, h, dx as int, dy as int, t.w as int, t.h as int, dw as int, dh as int).min_y,
        c.2 == corner_candidate(*r, h, dx as int, dy as int, t.w as int, t.h as int, dw as int, dh as int).max_x,
        c.3 == corner_candidate(*r, h, dx as int, dy as int, t.w as int, t.h as int, dw as int, dh as int).max_y,
{
    let (ax, ay): (i64, i64) = match h {
        ResizeHandle::TopLeft => (r.max_x, r.max_y),
        ResizeHandle::TopRight => (r.min_x, r.max_y),
        ResizeHandle::BottomLeft => (r.max_x, r.min_y),
        _ => (r.min_x, r.min_y),
    };
    let (mx, my): (i64, i64) = match h {
        ResizeHandle::TopLeft => (r.min_x, r.min_y),
        ResizeHandle::TopRight => (r.max_x, r.min_y),
        ResizeHandle::BottomLeft => (r.min_x, r.max_y),
        _ => (r.max_x, r.max_y),
    };
    let tx: i64 = mx + dx;
    let ty: i64 = my + dy;
    let raw_w: i64 = if tx >= ax {
        tx - ax
    } else {
        ax - tx
    };
    let raw_h: i64 = if ty >= ay {
        ty - ay
    } else {
        ay - ty
    };
    let wh: (i64, i64) = corner_dims(raw_w, raw_h, t.w, t.h, dw, dh);
    proof {
        lemma_mul_upper_bound(raw_w as int, SCALE + DELTA_LIMIT, dw as int, DISPLAY_LIMIT as int);
        lemma_mul_upper_bound(raw_h as int, SCALE + DELTA_LIMIT, dh as int, DISPLAY_LIMIT as int);
        lemma_mul_nonnegative(raw_w as int, dw as int);
        lemma_mul_nonnegative(raw_h as int, dh as int);
    }
    match h {
        ResizeHandle::TopLeft => (
            (ax - wh.0) as i128,
            (ay - wh.1) as i128,
            ax as i128,
            ay as i128,
        ),
        ResizeHandle::TopRight => (
            ax as i128,
            (ay - wh.1) as i128,
            (ax + wh.0) as i128,
            ay as i128,
        ),
        ResizeHandle::BottomLeft => (
            (ax - wh.0) as i128,
            ay as i128,
            ax as i128,
            (ay + wh.1) as i128,
        ),
        _ => (
            ax as i128,
            ay as i128,
            (ax + wh.0) as i128,
            (ay + wh.1) as i128,
        ),
    }
}

/// The locked edge-drag candidate, in wide coordinates. `an : ad` is the
/// target ratio rescaled into normalized space.
fn edge_candidate_exec(
    r: &NormRect,
    h: ResizeHandle,
    dx: i64,
    dy: i64,
    an: i64,
    ad: i64,
) -> (c: (i128, i128, i128, i128))
    requires
        r.wf(),
        -DELTA_LIMIT <= dx <= DELTA_LIMIT,
        -DELTA_LIMIT <= dy <= DELTA_LIMIT,
        1 <= an <= 1_000_000_000_000,
        1 <= ad <= 1_000_000_000_000,
        h is Left || h is Right || h is Top || h is Bottom,
    ensures
        c.0 == edge_candidate(*r, h, dx as int, dy as int, an as int, ad as int).min_x,
        c.1 == edge_candidate(*r, h, dx as int, dy as int, an as int, ad as int).min_y,
        c.2 == edge_candidate(*r, h, dx as int, dy as int, an as int, ad as int).max_x,
        c.3 == edge_candidate(*r, h, dx as int, dy as int, an as int, ad as int).max_y,
{
    if matches!(h, ResizeHandle::Left | ResizeHandle::Right) {
        let min_x: i64 = if matches!(h, ResizeHandle::Left) {
            r.min_x + dx
        } else {
            r.min_x
        };
        let max_x: i64 = if matches!(h, ResizeHandle::Right) {
            r.max_x + dx
        } else {
            r.max_x
        };
        let span: i64 = max_x - min_x;
        proof {
            lemma_span_product_bound(span as int, ad as int);
        }
        let prod: i128 = (span as i128) * (ad as i128);
        let new_h: i128 = tdiv_i128(prod, an as i128);
        let sum_y: i128 = (r.min_y + r.max_y) as i128;
        let nmin_y: i128 = tdiv_i128(sum_y - new_h, 2);
        (min_x as i128, nmin_y, max_x as i128, nmin_y + new_h)
    } else {
        let min_y: i64 = if matches!(h, ResizeHandle::Top) {
            r.min_y + dy
        } else {
            r.min_y
        };
        let max_y: i64 = if matches!(h, ResizeHandle::Bottom) {
            r.max_y + dy
        } else {
            r.max_y
        };
        let span: i64 = max_y - min_y;
        proof {
            lemma_span_product_bound(span as int, an as int);
        }
        let prod: i128 = (span as i128) * (an as i128);
        let new_w: i128 = tdiv_i128(prod, ad as i128);
        let sum_x: i128 = (r.min_x + r.max_x) as i128;
        let nmin_x: i128 = tdiv_i128(sum_x - new_w, 2);
        (nmin_x, min_y as i128, nmin_x + new_w, max_y as i128)
    }
}

/// The driven span times the ratio component stays well inside the wide
/// machine range.
proof fn lemma_span_product_bound(span: int, f: int) by (nonlinear_arith)
    requires
        -2_000_000_000 <= span <= 2_000_000_000,
        1 <= f <= 1_000_000_000_000,
    ensures
        -2_000_000_000_000_000_000_000 <= span * f <= 2_000_000_000_000_000_000_000,
{
}

/// Resolves one drag frame: applies the active handle's motion — free, or
/// constrained to the target ratio — then clamps the candidate into the
/// unit square and repairs it. The result is always well-formed.
pub fn resolve_drag(
    r: &NormRect,
    h: ResizeHandle,
    dx: i64,
    dy: i64,
    target: Option<Ratio>,
    dims: &ImageDims,
    dw: i64,
    dh: i64,
) -> (out: NormRect)
    requires
        r.wf(),
        -DELTA_LIMIT <= dx <= DELTA_LIMIT,
        -DELTA_LIMIT <= dy <= DELTA_LIMIT,
        target matches Some(t) ==> t.wf(),
        dims.wf(),
        1 <= dw <= DISPLAY_LIMIT,
        1 <= dh <= DISPLAY_LIMIT,
    ensures
        out == resolve_drag_spec(*r, h, dx as int, dy as int, target, *dims, dw as int, dh as int),
        out.wf(),
{
    let c: (i128, i128, i128, i128) = match target {
        None => free_candidate_exec(r, h, dx, dy),
        Some(t) => match h {
            ResizeHandle::Center => free_candidate_exec(r, h, dx, dy),
            ResizeHandle::TopLeft
            | ResizeHandle::TopRight
            | ResizeHandle::BottomLeft
            | ResizeHandle::BottomRight => corner_candidate_exec(r, h, dx, dy, &t, dw, dh),
            _ => {
                proof {
                    lemma_mul_upper_bound(t.w as int, crate::aspect::RATIO_LIMIT as int, dims.h as int, crate::aspect::DIM_LIMIT as int);
                    lemma_mul_upper_bound(t.h as int, crate::aspect::RATIO_LIMIT as int, dims.w as int, crate::aspect::DIM_LIMIT as int);
                    lemma_mul_strictly_positive(t.w as int, dims.h as int);
                    lemma_mul_strictly_positive(t.h as int, dims.w as int);
                }
                let an: i64 = t.w * (dims.h as i64);
                let ad: i64 = t.h * (dims.w as i64);
                edge_candidate_exec(r, h, dx, dy, an, ad)
            },
        },
    };
    clamp_wide(c.0, c.1, c.2, c.3)
}

} // verus!
