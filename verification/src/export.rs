//! The pixel window a crop exports.
//!
//! The final rectangle and the image's dimensions give an integer pixel
//! window: the origin rounds down, the size rounds to nearest, and both are
//! clamped so the window is at least one pixel and never leaves the image.
//! The actual pixel copy and encode happen outside this crate.

use vstd::prelude::*;
use crate::aspect::ImageDims;
use crate::geom::NormRect;
use crate::geom::SCALE;
use crate::geom::div_u128;
use crate::geom::lemma_quotient_cap;
use crate::geom::tdiv;
use vstd::arithmetic::mul::lemma_mul_inequality;
use vstd::arithmetic::mul::lemma_mul_nonnegative;

verus! {

/// An axis of the export window: `origin` is the rectangle's lower edge
/// scaled to pixels and rounded down, held below the image edge; `size` is
/// the rectangle's span scaled to pixels and rounded to nearest, held to at
/// least one pixel and to the room left of the image.
pub open spec fn window_axis(lo: int, hi: int, pixels: int) -> (int, int) {
    let o0 = tdiv(lo * pixels, SCALE as int);
    let o = if o0 > pixels - 1 {
        pixels - 1
    } else {
        o0
    };
    let s0 = tdiv(2 * (hi - lo) * pixels + SCALE, 2 * (SCALE as int));
    let s1 = if s0 < 1 {
        1
    } else {
        s0
    };
    let s = if s1 > pixels - o {
        pixels - o
    } else {
        s1
    };
    (o, s)
}

/// One axis of the window, executably.
fn window_axis_exec(lo: i64, hi: i64, pixels: u32) -> (os: (u32, u32))
    requires
        0 <= lo <= hi <= SCALE,
        1 <= pixels <= crate::aspect::DIM_LIMIT,
    ensures
        os.0 == window_axis(lo as int, hi as int, pixels as int).0,
        os.1 == window_axis(lo as int, hi as int, pixels as int).1,
        os.0 + os.1 <= pixels,
        1 <= os.1,
        os.0 < pixels,
{
    proof {
        lemma_mul_nonnegative(lo as int, pixels as int);
        lemma_mul_inequality(lo as int, SCALE as int, pixels as int);
        assert(lo * pixels == (lo as int) * (pixels as int));
    }
    let o_raw: u128 = div_u128((lo as u128) * (pixels as u128), SCALE as u128);
    proof {
        lemma_quotient_cap(o_raw as int, lo * pixels, SCALE as int, pixels as int);
        assert(SCALE * pixels == pixels * (SCALE as int)) by (nonlinear_arith);
    }
    let o: u32 = if o_raw > (pixels - 1) as u128 {
        pixels - 1
    } else {
        o_raw as u32
    };
    let span: i64 = hi - lo;
    proof {
        lemma_mul_nonnegative(2 * span as int, pixels as int);
        lemma_mul_inequality(2 * span as int, 2 * SCALE as int, pixels as int);
        assert((2 * span) * pixels == 2 * (span as int) * (pixels as int));
    }
    let s_num: u128 = 2 * (span as u128) * (pixels as u128) + (SCALE as u128);
    let s_raw: u128 = div_u128(s_num, 2 * (SCALE as u128));
    proof {
        assert(s_num <= (pixels + 1) * (2 * (SCALE as int))) by (nonlinear_arith)
            requires
                s_num == 2 * (span as int) * (pixels as int) + SCALE,
                0 <= span <= SCALE,
                1 <= pixels;
        lemma_quotient_cap(s_raw as int, s_num as int, 2 * (SCALE as int), pixels + 1);
    }
    let s1: u32 = if s_raw < 1 {
        1
    } else {
        s_raw as u32
    };
    let s: u32 = if s1 > pixels - o {
        pixels - o
    } else {
        s1
    };
    (o, s)
}

/// The pixel window of a crop: origin and size on each axis, clamped so
/// the window holds at least one pixel and lies inside the image.
pub open spec fn crop_window_spec(r: NormRect, dims: ImageDims) -> (int, int, int, int) {
    let wx = window_axis(r.min_x as int, r.max_x as int, dims.w as int);
    let wy = window_axis(r.min_y as int, r.max_y as int, dims.h as int);
    (wx.0, wy.0, wx.1, wy.1)
}

/// Computes the pixel window `(x, y, width, height)` to hand to the pixel
/// copy: origins round down, sizes round to nearest, and the window always
/// holds at least one pixel inside the image.
pub fn crop_window(r: &NormRect, dims: &ImageDims) -> (win: (u32, u32, u32, u32))
    requires
        r.wf(),
        dims.wf(),
    ensures
        win.0 == crop_window_spec(*r, *dims).0,
        win.1 == crop_window_spec(*r, *dims).1,
        win.2 == crop_window_spec(*r, *dims).2,
        win.3 == crop_window_spec(*r, *dims).3,
        win.0 + win.2 <= dims.w,
        win.1 + win.3 <= dims.h,
        1 <= win.2 && 1 <= win.3,
        win.0 < dims.w && win.1 < dims.h,
{
    let wx: (u32, u32) = window_axis_exec(r.min_x, r.max_x, dims.w);
    let wy: (u32, u32) = window_axis_exec(r.min_y, r.max_y, dims.h);
    (wx.0, wy.0, wx.1, wy.1)
}

} // verus!
