//! The crop session: the one owner of the crop rectangle and aspect state.
//!
//! The session installs a full-image rectangle when an image is loaded,
//! selects a handle on pointer-down, routes each pointer-move frame through
//! the solver, and re-applies the aspect constraint when the user changes
//! the mode, the custom ratio, or the orientation. Every mutation leaves
//! the rectangle well-formed.

use vstd::prelude::*;
use crate::aspect::AspectRatioMode;
use crate::aspect::CUSTOM_MAX;
use crate::aspect::DIM_LIMIT;
use crate::aspect::ImageDims;
use crate::aspect::Ratio;
use crate::aspect::clamp_custom;
use crate::aspect::counterpart_spec;
use crate::aspect::resolve;
use crate::aspect::resolve_spec;
use crate::geom::DELTA_LIMIT;
use crate::geom::NormRect;
use crate::geom::SCALE;
use crate::geom::clamp_candidate;
use crate::geom::clamp_rect;
use crate::geom::crop_screen_rect;
use crate::geom::crop_screen_spec;
use crate::geom::lemma_quotient_cap;
use crate::geom::tdiv;
use crate::geom::tdiv_i128;
use crate::handle::COORD_LIMIT;
use crate::handle::ResizeHandle;
use crate::handle::ScreenRect;
use crate::handle::hit_test;
use crate::handle::hit_test_spec;
use crate::solver::DISPLAY_LIMIT;
use crate::solver::resolve_drag;
use crate::solver::resolve_drag_spec;
use vstd::arithmetic::mul::lemma_mul_inequality;
use vstd::arithmetic::mul::lemma_mul_nonnegative;
use vstd::arithmetic::mul::lemma_mul_upper_bound;

verus! {

/// Upper bound of a normalized aspect pair component: a pixel ratio
/// component times an image side length.
pub const NORM_RATIO_LIMIT: i64 = 1_000_000_000_000;

/// One span slid back inside `[0, SCALE]`: shifted right if it starts below
/// zero, then shifted left if it ends past `SCALE`; the length is kept.
pub open spec fn slide_span(lo: int, hi: int) -> (int, int) {
    let lo1 = if lo < 0 {
        0
    } else {
        lo
    };
    let hi1 = if lo < 0 {
        hi - lo
    } else {
        hi
    };
    if hi1 > SCALE {
        (lo1 + (SCALE - hi1), SCALE as int)
    } else {
        (lo1, hi1)
    }
}

/// What applying a normalized target ratio `an : ad` does to a rectangle:
/// the larger current dimension is kept, the other is derived from the
/// ratio; the new spans are centered on the old center, slid back inside
/// the unit square, and finally hard-clamped. The hard clamp can cut a
/// ratio too extreme for the available space, which is the accepted
/// behavior at such extremes.
pub open spec fn apply_aspect_spec(r: NormRect, an: int, ad: int) -> NormRect {
    let w = r.width();
    let h = r.height();
    let max_dim = if w >= h {
        w
    } else {
        h
    };
    let new_w = if an >= ad {
        max_dim
    } else {
        tdiv(max_dim * an, ad)
    };
    let new_h = if an >= ad {
        tdiv(max_dim * ad, an)
    } else {
        max_dim
    };
    let min_x0 = tdiv(r.min_x + r.max_x - new_w, 2);
    let min_y0 = tdiv(r.min_y + r.max_y - new_h, 2);
    let sx = slide_span(min_x0, min_x0 + new_w);
    let sy = slide_span(min_y0, min_y0 + new_h);
    clamp_candidate(sx.0, sy.0, sx.1, sy.1)
}

/// Applies a normalized target ratio to a rectangle, keeping the larger
/// dimension, centering, and staying inside the unit square.
pub fn apply_aspect_rect(r: &NormRect, an: i64, ad: i64) -> (out: NormRect)
    requires
        r.wf(),
        1 <= an <= NORM_RATIO_LIMIT,
        1 <= ad <= NORM_RATIO_LIMIT,
    ensures
        out == apply_aspect_spec(*r, an as int, ad as int),
        out.wf(),
{
    let w: i64 = r.max_x - r.min_x;
    let h: i64 = r.max_y - r.min_y;
    let max_dim: i64 = if w >= h {
        w
    } else {
        h
    };
    let (new_w, new_h): (i64, i64) = if an >= ad {
        proof {
            lemma_mul_upper_bound(max_dim as int, SCALE as int, ad as int, NORM_RATIO_LIMIT as int);
            lemma_mul_nonnegative(max_dim as int, ad as int);
            lemma_mul_inequality(ad as int, an as int, max_dim as int);
            assert(max_dim * ad == ad * max_dim) by (nonlinear_arith);
            assert(max_dim * an == an * max_dim) by (nonlinear_arith);
        }
        let prod: i128 = (max_dim as i128) * (ad as i128);
        let q: i128 = tdiv_i128(prod, an as i128);
        proof {
            lemma_quotient_cap(q as int, prod as int, an as int, max_dim as int);
        }
        (max_dim, q as i64)
    } else {
        proof {
            lemma_mul_upper_bound(max_dim as int, SCALE as int, an as int, NORM_RATIO_LIMIT as int);
            lemma_mul_nonnegative(max_dim as int, an as int);
            lemma_mul_inequality(an as int, ad as int, max_dim as int);
            assert(max_dim * an == an * max_dim) by (nonlinear_arith);
            assert(max_dim * ad == ad * max_dim) by (nonlinear_arith);
        }
        let prod: i128 = (max_dim as i128) * (an as i128);
        let q: i128 = tdiv_i128(prod, ad as i128);
        proof {
            lemma_quotient_cap(q as int, prod as int, ad as int, max_dim as int);
        }
        (q as i64, max_dim)
    };
    let min_x0: i64 = tdiv_i128((r.min_x + r.max_x - new_w) as i128, 2) as i64;
    let min_y0: i64 = tdiv_i128((r.min_y + r.max_y - new_h) as i128, 2) as i64;
    let max_x0: i64 = min_x0 + new_w;
    let max_y0: i64 = min_y0 + new_h;
    let (min_x1, max_x1): (i64, i64) = if min_x0 < 0 {
        (0, max_x0 - min_x0)
    } else {
        (min_x0, max_x0)
    };
    let (min_x2, max_x2): (i64, i64) = if max_x1 > SCALE {
        (min_x1 + (SCALE - max_x1), SCALE)
    } else {
        (min_x1, max_x1)
    };
    let (min_y1, max_y1): (i64, i64) = if min_y0 < 0 {
        (0, max_y0 - min_y0)
    } else {
        (min_y0, max_y0)
    };
    let (min_y2, max_y2): (i64, i64) = if max_y1 > SCALE {
        (min_y1 + (SCALE - max_y1), SCALE)
    } else {
        (min_y1, max_y1)
    };
    clamp_rect(NormRect { min_x: min_x2, min_y: min_y2, max_x: max_x2, max_y: max_y2 })
}

/// The interactive cropping state: the rectangle, the aspect constraint,
/// the custom ratio pair, the orientation flag, the handle under drag, and
/// the loaded image's dimensions.
pub struct CropSession {
    pub rect: NormRect,
    pub mode: AspectRatioMode,
    pub custom_w: u32,
    pub custom_h: u32,
    pub is_portrait: bool,
    pub selected: Option<ResizeHandle>,
    pub dims: Option<ImageDims>,
}

/// The session's target ratio in pixel space, from its mode and state.
pub open spec fn session_target(s: CropSession) -> Option<Ratio> {
    resolve_spec(s.mode, s.custom_w, s.custom_h, s.dims->0)
}

/// The rectangle after re-applying the session's aspect constraint:
/// unchanged for `Free`, otherwise the ratio rescaled to normalized space
/// and applied.
pub open spec fn applied_rect(s: CropSession) -> NormRect {
    match session_target(s) {
        None => s.rect,
        Some(t) => apply_aspect_spec(s.rect, t.w * (s.dims->0).h, t.h * (s.dims->0).w),
    }
}

/// The session state after the orientation toggle, before the constraint is
/// re-applied: the flag flips; a custom ratio swaps its two integers, any
/// other mode moves to its counterpart.
pub open spec fn toggled_session(s: CropSession) -> CropSession {
    if s.mode is Custom {
        CropSession { is_portrait: !s.is_portrait, custom_w: s.custom_h, custom_h: s.custom_w, ..s }
    } else {
        CropSession { is_portrait: !s.is_portrait, mode: counterpart_spec(s.mode), ..s }
    }
}

impl CropSession {
    /// A session is well-formed when its rectangle is, its custom pair is
    /// validated, and its image dimensions (if any) are in range.
    pub open spec fn wf(self) -> bool {
        &&& self.rect.wf()
        &&& 1 <= self.custom_w <= CUSTOM_MAX
        &&& 1 <= self.custom_h <= CUSTOM_MAX
        &&& self.dims matches Some(d) ==> d.wf()
    }

    /// A fresh session: no image yet, a full-image rectangle, an
    /// unconstrained mode, and a 4:3 custom pair.
    pub fn new() -> (s: CropSession)
        ensures
            s.wf(),
            s.rect == (NormRect { min_x: 0, min_y: 0, max_x: SCALE, max_y: SCALE }),
            s.mode is Free,
            s.custom_w == 4 && s.custom_h == 3,
            !s.is_portrait,
            s.selected is None,
            s.dims is None,
    {
        CropSession {
            rect: NormRect::full(),
            mode: AspectRatioMode::Free,
            custom_w: 4,
            custom_h: 3,
            is_portrait: false,
            selected: None,
            dims: None,
        }
    }

    /// Installs a newly loaded image: its dimensions are recorded, the crop
    /// rectangle resets to the full image, and any drag is cancelled. The
    /// rest of the state is kept.
    pub fn load_image(&mut self, w: u32, h: u32)
        requires
            old(self).wf(),
            1 <= w <= DIM_LIMIT,
            1 <= h <= DIM_LIMIT,
        ensures
            final(self).wf(),
            final(self).dims == Some(ImageDims { w, h }),
            final(self).rect == (NormRect { min_x: 0, min_y: 0, max_x: SCALE, max_y: SCALE }),
            final(self).selected is None,
            final(self).mode == old(self).mode,
            final(self).custom_w == old(self).custom_w,
            final(self).custom_h == old(self).custom_h,
            final(self).is_portrait == old(self).is_portrait,
    {
        self.dims = Some(ImageDims { w, h });
        self.rect = NormRect::full();
        self.selected = None;
    }

    /// Re-applies the current aspect constraint to the rectangle, as when
    /// the user changes any ratio control; `Free` leaves it unchanged.
    pub fn apply_aspect_ratio(&mut self)
        requires
            old(self).wf(),
            old(self).dims is Some,
        ensures
            final(self).wf(),
            final(self).rect == applied_rect(*old(self)),
            final(self).mode == old(self).mode,
            final(self).custom_w == old(self).custom_w,
            final(self).custom_h == old(self).custom_h,
            final(self).is_portrait == old(self).is_portrait,
            final(self).selected == old(self).selected,
            final(self).dims == old(self).dims,
    {
        let d: ImageDims = self.dims.unwrap();
        let target: Option<Ratio> = resolve(self.mode, self.custom_w, self.custom_h, &d);
        match target {
            None => {},
            Some(t) => {
                proof {
                    lemma_mul_upper_bound(t.w as int, crate::aspect::RATIO_LIMIT as int, d.h as int, DIM_LIMIT as int);
                    lemma_mul_upper_bound(t.h as int, crate::aspect::RATIO_LIMIT as int, d.w as int, DIM_LIMIT as int);
                    vstd::arithmetic::mul::lemma_mul_strictly_positive(t.w as int, d.h as int);
                    vstd::arithmetic::mul::lemma_mul_strictly_positive(t.h as int, d.w as int);
                }
                let an: i64 = t.w * (d.h as i64);
                let ad: i64 = t.h * (d.w as i64);
                let nr: NormRect = apply_aspect_rect(&self.rect, an, ad);
                self.rect = nr;
            },
        }
    }

    /// Selects a new aspect mode and re-applies the constraint.
    pub fn set_mode(&mut self, m: AspectRatioMode)
        requires
            old(self).wf(),
            old(self).dims is Some,
        ensures
            final(self).wf(),
            final(self).mode == m,
            final(self).rect == applied_rect(
                (CropSession { mode: m, ..*old(self) }),
            ),
            final(self).custom_w == old(self).custom_w,
            final(self).custom_h == old(self).custom_h,
            final(self).is_portrait == old(self).is_portrait,
            final(self).selected == old(self).selected,
            final(self).dims == old(self).dims,
    {
        self.mode = m;
        self.apply_aspect_ratio();
    }

    /// Takes a new custom ratio pair, clamps each component into
    /// `1..=CUSTOM_MAX` at this input boundary, and re-applies the
    /// constraint.
    pub fn set_custom_ratio(&mut self, w: u32, h: u32)
        requires
            old(self).wf(),
            old(self).dims is Some,
        ensures
            final(self).wf(),
            final(self).custom_w == crate::aspect::clamp_custom_spec(w),
            final(self).custom_h == crate::aspect::clamp_custom_spec(h),
            final(self).rect == applied_rect(
                (CropSession {
                    custom_w: crate::aspect::clamp_custom_spec(w),
                    custom_h: crate::aspect::clamp_custom_spec(h),
                    ..*old(self)
                }),
            ),
            final(self).mode == old(self).mode,
            final(self).is_portrait == old(self).is_portrait,
            final(self).selected == old(self).selected,
            final(self).dims == old(self).dims,
    {
        self.custom_w = clamp_custom(w);
        self.custom_h = clamp_custom(h);
        self.apply_aspect_ratio();
    }

    /// Flips the orientation: a custom ratio swaps its two integers, any
    /// other mode moves to its counterpart; then the constraint is
    /// re-applied.
    pub fn toggle_orientation(&mut self)
        requires
            old(self).wf(),
            old(self).dims is Some,
        ensures
            final(self).wf(),
            final(self).is_portrait == !old(self).is_portrait,
            final(self).mode == toggled_session(*old(self)).mode,
            final(self).custom_w == toggled_session(*old(self)).custom_w,
            final(self).custom_h == toggled_session(*old(self)).custom_h,
            final(self).rect == applied_rect(toggled_session(*old(self))),
            final(self).selected == old(self).selected,
            final(self).dims == old(self).dims,
    {
        self.is_portrait = !self.is_portrait;
        if matches!(self.mode, AspectRatioMode::Custom) {
            let t: u32 = self.custom_w;
            self.custom_w = self.custom_h;
            self.custom_h = t;
        } else {
            self.mode = self.mode.counterpart();
        }
        self.apply_aspect_ratio();
    }

    /// Pointer-down: hit-tests the pointer against the crop rectangle as
    /// drawn inside the image's display span, selecting a handle or none.
    pub fn begin_drag(&mut self, px: i64, py: i64, disp: &ScreenRect)
        requires
            old(self).wf(),
            disp.wf(),
            -COORD_LIMIT <= px <= COORD_LIMIT,
            -COORD_LIMIT <= py <= COORD_LIMIT,
        ensures
            final(self).wf(),
            final(self).selected == hit_test_spec(
                px as int,
                py as int,
                crop_screen_spec(old(self).rect, *disp),
            ),
            final(self).rect == old(self).rect,
            final(self).mode == old(self).mode,
            final(self).custom_w == old(self).custom_w,
            final(self).custom_h == old(self).custom_h,
            final(self).is_portrait == old(self).is_portrait,
            final(self).dims == old(self).dims,
    {
        let screen: ScreenRect = crop_screen_rect(&self.rect, disp);
        self.selected = hit_test(px, py, &screen);
    }

    /// Pointer-move: one drag frame. With a handle selected, the frame's
    /// delta goes through the constraint solver under the session's target
    /// ratio and the clamped result replaces the rectangle; with none, the
    /// state is untouched.
    pub fn drag_update(&mut self, dx: i64, dy: i64, dw: i64, dh: i64)
        requires
            old(self).wf(),
            old(self).dims is Some,
            -DELTA_LIMIT <= dx <= DELTA_LIMIT,
            -DELTA_LIMIT <= dy <= DELTA_LIMIT,
            1 <= dw <= DISPLAY_LIMIT,
            1 <= dh <= DISPLAY_LIMIT,
        ensures
            final(self).wf(),
            old(self).selected matches Some(h) ==> final(self).rect == resolve_drag_spec(
                old(self).rect,
                h,
                dx as int,
                dy as int,
                session_target(*old(self)),
                old(self).dims->0,
                dw as int,
                dh as int,
            ),
            old(self).selected is None ==> final(self).rect == old(self).rect,
            final(self).mode == old(self).mode,
            final(self).custom_w == old(self).custom_w,
            final(self).custom_h == old(self).custom_h,
            final(self).is_portrait == old(self).is_portrait,
            final(self).selected == old(self).selected,
            final(self).dims == old(self).dims,
    {
        match self.selected {
            None => {},
            Some(h) => {
                let d: ImageDims = self.dims.unwrap();
                let target: Option<Ratio> = resolve(self.mode, self.custom_w, self.custom_h, &d);
                let nr: NormRect = resolve_drag(&self.rect, h, dx, dy, target, &d, dw, dh);
                self.rect = nr;
            },
        }
    }

    /// Pointer-up: clears the selected handle; idempotent when none is
    /// selected.
    pub fn end_drag(&mut self)
        requires
            old(self).wf(),
        ensures
            final(self).wf(),
            final(self).selected is None,
            final(self).rect == old(self).rect,
            final(self).mode == old(self).mode,
            final(self).custom_w == old(self).custom_w,
            final(self).custom_h == old(self).custom_h,
            final(self).is_portrait == old(self).is_portrait,
            final(self).dims == old(self).dims,
    {
        self.selected = None;
    }
}

} // verus!
