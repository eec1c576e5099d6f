//! Aspect-ratio modes and the resolver from a mode to a target ratio.
//!
//! A target ratio is an exact pair `w : h` of positive integers, in true
//! pixel space. Because an image's own pixels stretch normalized space, a
//! pixel ratio must be rescaled by the image's height-to-width ratio before
//! any arithmetic on normalized rectangle coordinates; that conversion and
//! its inverse live here too.

use vstd::prelude::*;

verus! {

/// Largest image side length, in pixels, the geometry accepts.
pub const DIM_LIMIT: u32 = 1_000_000;

/// Largest numerator or denominator of a pixel-space target ratio; named
/// ratios are tiny, custom ratios are at most 100, and an `Original` ratio
/// is bounded by the image side lengths.
pub const RATIO_LIMIT: i64 = 1_000_000;

/// Custom ratio components are held to this range at the input boundary.
pub const CUSTOM_MAX: u32 = 100;

/// The user-selectable aspect-ratio constraint for the crop rectangle.
#[derive(Clone, Copy, Debug, PartialEq, Eq, Structural)]
pub enum AspectRatioMode {
    Free,
    Original,
    Square,
    R3_2,
    R4_3,
    R16_9,
    R16_10,
    R2_3,
    R3_4,
    R9_16,
    R10_16,
    Custom,
}

/// The orientation counterpart of a mode: each named landscape ratio pairs
/// with its portrait reciprocal and vice versa; `Free`, `Original`, `Square`
/// and `Custom` map to themselves (a custom ratio is flipped by swapping its
/// two integers, not by changing the mode tag).
pub open spec fn counterpart_spec(m: AspectRatioMode) -> AspectRatioMode {
    match m {
        AspectRatioMode::R3_2 => AspectRatioMode::R2_3,
        AspectRatioMode::R4_3 => AspectRatioMode::R3_4,
        AspectRatioMode::R16_9 => AspectRatioMode::R9_16,
        AspectRatioMode::R16_10 => AspectRatioMode::R10_16,
        AspectRatioMode::R2_3 => AspectRatioMode::R3_2,
        AspectRatioMode::R3_4 => AspectRatioMode::R4_3,
        AspectRatioMode::R9_16 => AspectRatioMode::R16_9,
        AspectRatioMode::R10_16 => AspectRatioMode::R16_10,
        _ => m,
    }
}

impl AspectRatioMode {
    /// The mode the orientation toggle switches to.
    pub fn counterpart(&self) -> (c: Self)
        ensures
            c == counterpart_spec(*self),
    {
        match self {
            AspectRatioMode::R3_2 => AspectRatioMode::R2_3,
            AspectRatioMode::R4_3 => AspectRatioMode::R3_4,
            AspectRatioMode::R16_9 => AspectRatioMode::R9_16,
            AspectRatioMode::R16_10 => AspectRatioMode::R10_16,
            AspectRatioMode::R2_3 => AspectRatioMode::R3_2,
            AspectRatioMode::R3_4 => AspectRatioMode::R4_3,
            AspectRatioMode::R9_16 => AspectRatioMode::R16_9,
            AspectRatioMode::R10_16 => AspectRatioMode::R16_10,
            _ => *self,
        }
    }

    /// The label shown for this mode.
    pub fn label(&self) -> (s: String) {
        match self {
            AspectRatioMode::Free => "Free".to_string(),
            AspectRatioMode::Original => "Original".to_string(),
            AspectRatioMode::Square => "1:1".to_string(),
            AspectRatioMode::R3_2 => "3:2".to_string(),
            AspectRatioMode::R4_3 => "4:3".to_string(),
            AspectRatioMode::R16_9 => "16:9".to_string(),
            AspectRatioMode::R16_10 => "16:10".to_string(),
            AspectRatioMode::R2_3 => "2:3".to_string(),
            AspectRatioMode::R3_4 => "3:4".to_string(),
            AspectRatioMode::R9_16 => "9:16".to_string(),
            AspectRatioMode::R10_16 => "10:16".to_string(),
            AspectRatioMode::Custom => "Custom".to_string(),
        }
    }
}

impl Default for AspectRatioMode {
    /// A fresh session starts unconstrained.
    fn default() -> (m: Self)
        ensures
            m == AspectRatioMode::Free,
    {
        AspectRatioMode::Free
    }
}

/// The counterpart mapping is an involution: toggling the orientation twice
/// restores the original mode, for every mode.
pub proof fn lemma_counterpart_involution(m: AspectRatioMode)
    ensures
        counterpart_spec(counterpart_spec(m)) == m,
{
}

/// A width-to-height ratio as an exact pair of positive integers.
#[derive(Clone, Copy, Debug, PartialEq, Eq, Structural)]
pub struct Ratio {
    pub w: i64,
    pub h: i64,
}

impl Ratio {
    /// Positive components, each within the given cap.
    pub open spec fn bounded(self, cap: int) -> bool {
        &&& 1 <= self.w <= cap
        &&& 1 <= self.h <= cap
    }

    /// A pixel-space target ratio as the resolver produces it.
    pub open spec fn wf(self) -> bool {
        self.bounded(RATIO_LIMIT as int)
    }
}

/// Two ratio pairs denote the same ratio, by cross multiplication.
pub open spec fn ratio_eq(a: Ratio, b: Ratio) -> bool {
    a.w * b.h == b.w * a.h
}

/// Width and height of the loaded image, in pixels.
#[derive(Clone, Copy, Debug, PartialEq, Eq, Structural)]
pub struct ImageDims {
    pub w: u32,
    pub h: u32,
}

impl ImageDims {
    /// Positive side lengths within the supported range.
    pub open spec fn wf(self) -> bool {
        &&& 1 <= self.w <= DIM_LIMIT
        &&& 1 <= self.h <= DIM_LIMIT
    }
}

/// The pixel-space target ratio for a mode: `None` for `Free`, the image's
/// own ratio for `Original`, a fixed literal pair for the named ratios, and
/// the validated custom pair for `Custom`.
pub open spec fn resolve_spec(
    m: AspectRatioMode,
    custom_w: u32,
    custom_h: u32,
    dims: ImageDims,
) -> Option<Ratio> {
    match m {
        AspectRatioMode::Free => None,
        AspectRatioMode::Original => Some(Ratio { w: dims.w as i64, h: dims.h as i64 }),
        AspectRatioMode::Square => Some(Ratio { w: 1, h: 1 }),
        AspectRatioMode::R3_2 => Some(Ratio { w: 3, h: 2 }),
        AspectRatioMode::R4_3 => Some(Ratio { w: 4, h: 3 }),
        AspectRatioMode::R16_9 => Some(Ratio { w: 16, h: 9 }),
        AspectRatioMode::R16_10 => Some(Ratio { w: 16, h: 10 }),
        AspectRatioMode::R2_3 => Some(Ratio { w: 2, h: 3 }),
        AspectRatioMode::R3_4 => Some(Ratio { w: 3, h: 4 }),
        AspectRatioMode::R9_16 => Some(Ratio { w: 9, h: 16 }),
        AspectRatioMode::R10_16 => Some(Ratio { w: 10, h: 16 }),
        AspectRatioMode::Custom => Some(Ratio { w: custom_w as i64, h: custom_h as i64 }),
    }
}

/// Maps the selected mode (with the validated custom pair and the image's
/// dimensions) to the target ratio in true pixel space, or `None` when the
/// crop is unconstrained.
pub fn resolve(m: AspectRatioMode, custom_w: u32, custom_h: u32, dims: &ImageDims) -> (r: Option<
    Ratio,
>)
    requires
        dims.wf(),
        1 <= custom_w <= CUSTOM_MAX,
        1 <= custom_h <= CUSTOM_MAX,
    ensures
        r == resolve_spec(m, custom_w, custom_h, *dims),
        r matches Some(t) ==> t.wf(),
        (r is None) == (m is Free),
{
    match m {
        AspectRatioMode::Free => None,
        AspectRatioMode::Original => Some(Ratio { w: dims.w as i64, h: dims.h as i64 }),
        AspectRatioMode::Square => Some(Ratio { w: 1, h: 1 }),
        AspectRatioMode::R3_2 => Some(Ratio { w: 3, h: 2 }),
        AspectRatioMode::R4_3 => Some(Ratio { w: 4, h: 3 }),
        AspectRatioMode::R16_9 => Some(Ratio { w: 16, h: 9 }),
        AspectRatioMode::R16_10 => Some(Ratio { w: 16, h: 10 }),
        AspectRatioMode::R2_3 => Some(Ratio { w: 2, h: 3 }),
        AspectRatioMode::R3_4 => Some(Ratio { w: 3, h: 4 }),
        AspectRatioMode::R9_16 => Some(Ratio { w: 9, h: 16 }),
        AspectRatioMode::R10_16 => Some(Ratio { w: 10, h: 16 }),
        AspectRatioMode::Custom => Some(Ratio { w: custom_w as i64, h: custom_h as i64 }),
    }
}

/// A custom ratio component forced into `1..=CUSTOM_MAX`.
pub open spec fn clamp_custom_spec(v: u32) -> u32 {
    if v < 1 {
        1u32
    } else if v > CUSTOM_MAX {
        CUSTOM_MAX
    } else {
        v
    }
}

/// A custom ratio component clamped into `1..=CUSTOM_MAX` at the input
/// boundary, so an out-of-range value never reaches the resolver.
pub fn clamp_custom(v: u32) -> (c: u32)
    ensures
        c == clamp_custom_spec(v),
        1 <= c <= CUSTOM_MAX,
        1 <= v <= CUSTOM_MAX ==> c == v,
{
    if v < 1 {
        1
    } else if v > CUSTOM_MAX {
        CUSTOM_MAX
    } else {
        v
    }
}

/// A pixel-space ratio rescaled into normalized space: the normalized ratio
/// is the pixel ratio times `height / width` of the image, kept exact as the
/// pair `(w * image_h) : (h * image_w)`.
pub open spec fn to_normalized_aspect_spec(r: Ratio, dims: ImageDims) -> Ratio {
    Ratio { w: (r.w * dims.h) as i64, h: (r.h * dims.w) as i64 }
}

/// Converts a pixel-space ratio to the ratio that holds between normalized
/// rectangle coordinates on this image.
pub fn to_normalized_aspect(r: &Ratio, dims: &ImageDims) -> (n: Ratio)
    requires
        r.wf(),
        dims.wf(),
    ensures
        n == to_normalized_aspect_spec(*r, *dims),
        n.w == r.w * dims.h && n.h == r.h * dims.w,
        n.bounded(RATIO_LIMIT as int * DIM_LIMIT as int),
{
    proof {
        lemma_norm_aspect_bounds(*r, *dims);
    }
    Ratio { w: r.w * (dims.h as i64), h: r.h * (dims.w as i64) }
}

/// The rescaled pair stays positive and within range.
proof fn lemma_norm_aspect_bounds(r: Ratio, dims: ImageDims) by (nonlinear_arith)
    requires
        r.wf(),
        dims.wf(),
    ensures
        1 <= r.w * dims.h <= RATIO_LIMIT as int * DIM_LIMIT as int,
        1 <= r.h * dims.w <= RATIO_LIMIT as int * DIM_LIMIT as int,
{
}

/// The inverse rescaling: a normalized-space ratio times `width / height`
/// of the image, giving back a pixel-space ratio pair.
pub open spec fn to_pixel_aspect_spec(r: Ratio, dims: ImageDims) -> Ratio {
    Ratio { w: (r.w * dims.w) as i64, h: (r.h * dims.h) as i64 }
}

/// Converts a normalized-space ratio back to true pixel space.
pub fn to_pixel_aspect(r: &Ratio, dims: &ImageDims) -> (p: Ratio)
    requires
        r.bounded(RATIO_LIMIT as int * DIM_LIMIT as int),
        dims.wf(),
    ensures
        p == to_pixel_aspect_spec(*r, *dims),
        p.w == r.w * dims.w && p.h == r.h * dims.h,
{
    proof {
        lemma_pixel_aspect_bounds(*r, *dims);
    }
    Ratio { w: r.w * (dims.w as i64), h: r.h * (dims.h as i64) }
}

/// The pixel-space pair stays positive and within the widest range held.
proof fn lemma_pixel_aspect_bounds(r: Ratio, dims: ImageDims) by (nonlinear_arith)
    requires
        r.bounded(RATIO_LIMIT as int * DIM_LIMIT as int),
        dims.wf(),
    ensures
        1 <= r.w * dims.w <= RATIO_LIMIT as int * DIM_LIMIT as int * DIM_LIMIT as int,
        1 <= r.h * dims.h <= RATIO_LIMIT as int * DIM_LIMIT as int * DIM_LIMIT as int,
{
}

/// Round trip: rescaling a pixel ratio into normalized space and back yields
/// the same ratio — the image-dimension factors divide out exactly.
pub proof fn lemma_normalized_aspect_roundtrip(r: Ratio, dims: ImageDims)
    requires
        r.wf(),
        dims.wf(),
    ensures
        ratio_eq(to_pixel_aspect_spec(to_normalized_aspect_spec(r, dims), dims), r),
{
    let n = to_normalized_aspect_spec(r, dims);
    let p = to_pixel_aspect_spec(n, dims);
    lemma_norm_aspect_bounds(r, dims);
    assert(n.w == r.w * dims.h && n.h == r.h * dims.w);
    lemma_pixel_aspect_bounds(n, dims);
    assert(p.w == n.w * dims.w && p.h == n.h * dims.h);
    assert(p.w * r.h == r.w * p.h) by (nonlinear_arith)
        requires
            p.w == (r.w * dims.h) * dims.w,
            p.h == (r.h * dims.w) * dims.h;
}

} // verus!
