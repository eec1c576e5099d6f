//! Resize handles and pointer hit testing in screen space.
//!
//! The crop rectangle shows eight resize handles (four corners, four edges);
//! a pointer press inside the rectangle but away from every handle starts a
//! move. Hit testing checks corners before edges — a corner point also lies
//! near two edges — and edges before the interior.

use vstd::prelude::*;

verus! {

/// Pointer pick radius around a handle, in screen units.
pub const TOLERANCE: i64 = 10;

/// Screen coordinates the hit test accepts, bounding squared distances.
pub const COORD_LIMIT: i64 = 1_000_000_000;

/// What a drag acts on: one of the eight resize handles, or `Center` for
/// moving the whole rectangle.
#[derive(Clone, Copy, Debug, PartialEq, Eq, Structural)]
pub enum ResizeHandle {
    TopLeft,
    TopRight,
    BottomLeft,
    BottomRight,
    Top,
    Bottom,
    Left,
    Right,
    Center,
}

/// An axis-aligned rectangle in screen units: the crop rectangle as drawn.
#[derive(Clone, Copy, Debug, PartialEq, Eq, Structural)]
pub struct ScreenRect {
    pub min_x: i64,
    pub min_y: i64,
    pub max_x: i64,
    pub max_y: i64,
}

impl ScreenRect {
    /// Ordered corners within the coordinate range the hit test accepts.
    pub open spec fn wf(self) -> bool {
        &&& -COORD_LIMIT <= self.min_x <= self.max_x <= COORD_LIMIT
        &&& -COORD_LIMIT <= self.min_y <= self.max_y <= COORD_LIMIT
    }
}

/// Absolute value.
pub open spec fn iabs(v: int) -> int {
    if v < 0 {
        -v
    } else {
        v
    }
}

/// Squared Euclidean distance between two points.
pub open spec fn dist2(ax: int, ay: int, bx: int, by: int) -> int {
    (ax - bx) * (ax - bx) + (ay - by) * (ay - by)
}

/// Within the pick radius of a point, by squared distance.
pub open spec fn near_point(px: int, py: int, cx: int, cy: int) -> bool {
    dist2(px, py, cx, cy) < TOLERANCE * TOLERANCE
}

/// Within the pick radius of a vertical edge, strictly inside its span.
pub open spec fn near_vertical_edge(px: int, py: int, edge_x: int, lo_y: int, hi_y: int) -> bool {
    iabs(px - edge_x) < TOLERANCE && lo_y < py && py < hi_y
}

/// Within the pick radius of a horizontal edge, strictly inside its span.
pub open spec fn near_horizontal_edge(px: int, py: int, edge_y: int, lo_x: int, hi_x: int) -> bool {
    iabs(py - edge_y) < TOLERANCE && lo_x < px && px < hi_x
}

/// Inside the rectangle, edges included.
pub open spec fn contains_point(r: ScreenRect, px: int, py: int) -> bool {
    r.min_x <= px <= r.max_x && r.min_y <= py <= r.max_y
}

/// The handle a pointer press at `(px, py)` selects, in priority order:
/// the four corners, then the four edges, then the interior (`Center`),
/// and `None` outside the rectangle and its tolerance band.
pub open spec fn hit_test_spec(px: int, py: int, r: ScreenRect) -> Option<ResizeHandle> {
    if near_point(px, py, r.min_x as int, r.min_y as int) {
        Some(ResizeHandle::TopLeft)
    } else if near_point(px, py, r.max_x as int, r.min_y as int) {
        Some(ResizeHandle::TopRight)
    } else if near_point(px, py, r.min_x as int, r.max_y as int) {
        Some(ResizeHandle::BottomLeft)
    } else if near_point(px, py, r.max_x as int, r.max_y as int) {
        Some(ResizeHandle::BottomRight)
    } else if near_vertical_edge(px, py, r.min_x as int, r.min_y as int, r.max_y as int) {
        Some(ResizeHandle::Left)
    } else if near_vertical_edge(px, py, r.max_x as int, r.min_y as int, r.max_y as int) {
        Some(ResizeHandle::Right)
    } else if near_horizontal_edge(px, py, r.min_y as int, r.min_x as int, r.max_x as int) {
        Some(ResizeHandle::Top)
    } else if near_horizontal_edge(px, py, r.max_y as int, r.min_x as int, r.max_x as int) {
        Some(ResizeHandle::Bottom)
    } else if contains_point(r, px, py) {
        Some(ResizeHandle::Center)
    } else {
        None
    }
}

/// Whether `(px, py)` lies within the pick radius of `(cx, cy)`.
fn point_hit(px: i64, py: i64, cx: i64, cy: i64) -> (b: bool)
    requires
        -COORD_LIMIT <= px <= COORD_LIMIT,
        -COORD_LIMIT <= py <= COORD_LIMIT,
        -COORD_LIMIT <= cx <= COORD_LIMIT,
        -COORD_LIMIT <= cy <= COORD_LIMIT,
    ensures
        b == near_point(px as int, py as int, cx as int, cy as int),
{
    let dx: i64 = px - cx;
    let dy: i64 = py - cy;
    proof {
        lemma_square_bound(dx as int);
        lemma_square_bound(dy as int);
    }
    dx * dx + dy * dy < TOLERANCE * TOLERANCE
}

/// A square of a coordinate difference stays well inside the machine range.
proof fn lemma_square_bound(d: int) by (nonlinear_arith)
    requires
        -2 * COORD_LIMIT <= d <= 2 * COORD_LIMIT,
    ensures
        0 <= d * d <= 4 * COORD_LIMIT * COORD_LIMIT,
{
}

/// Hit-tests a pointer position against the crop rectangle as drawn on
/// screen, picking corners over edges over the interior, and `None` when
/// the pointer is outside the rectangle and its tolerance band.
pub fn hit_test(px: i64, py: i64, r: &ScreenRect) -> (h: Option<ResizeHandle>)
    requires
        r.wf(),
        -COORD_LIMIT <= px <= COORD_LIMIT,
        -COORD_LIMIT <= py <= COORD_LIMIT,
    ensures
        h == hit_test_spec(px as int, py as int, *r),
{
    if point_hit(px, py, r.min_x, r.min_y) {
        return Some(ResizeHandle::TopLeft);
    }
    if point_hit(px, py, r.max_x, r.min_y) {
        return Some(ResizeHandle::TopRight);
    }
    if point_hit(px, py, r.min_x, r.max_y) {
        return Some(ResizeHandle::BottomLeft);
    }
    if point_hit(px, py, r.max_x, r.max_y) {
        return Some(ResizeHandle::BottomRight);
    }
    let adx_min: i64 = if px >= r.min_x {
        px - r.min_x
    } else {
        r.min_x - px
    };
    let adx_max: i64 = if px >= r.max_x {
        px - r.max_x
    } else {
        r.max_x - px
    };
    let ady_min: i64 = if py >= r.min_y {
        py - r.min_y
    } else {
        r.min_y - py
    };
    let ady_max: i64 = if py >= r.max_y {
        py - r.max_y
    } else {
        r.max_y - py
    };
    if adx_min < TOLERANCE && r.min_y < py && py < r.max_y {
        return Some(ResizeHandle::Left);
    }
    if adx_max < TOLERANCE && r.min_y < py && py < r.max_y {
        return Some(ResizeHandle::Right);
    }
    if ady_min < TOLERANCE && r.min_x < px && px < r.max_x {
        return Some(ResizeHandle::Top);
    }
    if ady_max < TOLERANCE && r.min_x < px && px < r.max_x {
        return Some(ResizeHandle::Bottom);
    }
    if r.min_x <= px && px <= r.max_x && r.min_y <= py && py <= r.max_y {
        return Some(ResizeHandle::Center);
    }
    None
}

} // verus!
