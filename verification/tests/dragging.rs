use cropkit::aspect::ImageDims;
use cropkit::aspect::Ratio;
use cropkit::geom::NormRect;
use cropkit::geom::SCALE;
use cropkit::handle::ResizeHandle;
use cropkit::solver::resolve_drag;

fn rect(min_x: i64, min_y: i64, max_x: i64, max_y: i64) -> NormRect {
    NormRect { min_x, min_y, max_x, max_y }
}

const DIMS_SQUARE: ImageDims = ImageDims { w: 1000, h: 1000 };

#[test]
fn free_top_left_drag_moves_only_its_corner() {
    // Unconstrained drag of the top-left handle by (-0.1, +0.05).
    let r = rect(200_000, 200_000, 800_000, 800_000);
    let out = resolve_drag(&r, ResizeHandle::TopLeft, -100_000, 50_000, None, &DIMS_SQUARE, 1000, 1000);
    assert_eq!(out, rect(100_000, 250_000, 800_000, 800_000));
}

#[test]
fn free_edge_drags_move_one_coordinate() {
    let r = rect(200_000, 200_000, 800_000, 800_000);
    let right = resolve_drag(&r, ResizeHandle::Right, 150_000, 999, None, &DIMS_SQUARE, 1000, 1000);
    assert_eq!(right, rect(200_000, 200_000, 950_000, 800_000));
    let top = resolve_drag(&r, ResizeHandle::Top, 999, -50_000, None, &DIMS_SQUARE, 1000, 1000);
    assert_eq!(top, rect(200_000, 150_000, 800_000, 800_000));
}

#[test]
fn free_drag_past_bounds_is_clamped() {
    let r = rect(200_000, 200_000, 800_000, 800_000);
    let out = resolve_drag(&r, ResizeHandle::BottomRight, 900_000_000, 900_000_000, None, &DIMS_SQUARE, 1000, 1000);
    assert_eq!(out, rect(200_000, 200_000, SCALE, SCALE));
}

#[test]
fn free_drag_past_sibling_corner_swaps_axes() {
    // Dragging the top-left corner past the bottom-right one inverts the
    // rectangle; the repair step restores min <= max.
    let r = rect(200_000, 200_000, 400_000, 400_000);
    let out = resolve_drag(&r, ResizeHandle::TopLeft, 500_000, 500_000, None, &DIMS_SQUARE, 1000, 1000);
    assert_eq!(out, rect(400_000, 400_000, 700_000, 700_000));
}

#[test]
fn center_drag_translates_and_respects_bounds() {
    let r = rect(200_000, 200_000, 800_000, 800_000);
    let out = resolve_drag(&r, ResizeHandle::Center, 150_000, -950_000_000, None, &DIMS_SQUARE, 1000, 1000);
    assert_eq!(out, rect(350_000, 0, 950_000, 600_000));
    // The same translation under a locked ratio behaves identically.
    let locked = resolve_drag(
        &r,
        ResizeHandle::Center,
        150_000,
        -950_000_000,
        Some(Ratio { w: 16, h: 9 }),
        &DIMS_SQUARE,
        1000,
        1000,
    );
    assert_eq!(locked, out);
}

#[test]
fn locked_corner_drag_projects_onto_square_ratio() {
    // Square ratio on a square image: the projection averages the two
    // screen spans, keeping the rectangle exactly square.
    let r = rect(0, 0, 500_000, 500_000);
    let out = resolve_drag(
        &r,
        ResizeHandle::BottomRight,
        100_000,
        0,
        Some(Ratio { w: 1, h: 1 }),
        &DIMS_SQUARE,
        1000,
        1000,
    );
    assert_eq!(out, rect(0, 0, 550_000, 550_000));
}

#[test]
fn locked_corner_drag_keeps_pixel_ratio_exact() {
    // A 4:3 image shown in a 4:3 display span: under the image's own
    // ratio the projected rectangle stays square in normalized units,
    // which is exactly 4:3 in pixels.
    let dims = ImageDims { w: 4000, h: 3000 };
    let r = rect(0, 0, SCALE, SCALE);
    let out = resolve_drag(
        &r,
        ResizeHandle::BottomRight,
        0,
        -400_000,
        Some(Ratio { w: 4, h: 3 }),
        &dims,
        400,
        300,
    );
    assert_eq!(out, rect(0, 0, 856_000, 856_000));
    let w_px = (out.max_x - out.min_x) * 4000;
    let h_px = (out.max_y - out.min_y) * 3000;
    assert_eq!(w_px * 3, h_px * 4);
}

#[test]
fn locked_top_left_drag_anchors_bottom_right() {
    let r = rect(0, 0, 500_000, 500_000);
    let out = resolve_drag(
        &r,
        ResizeHandle::TopLeft,
        -100_000,
        0,
        Some(Ratio { w: 1, h: 1 }),
        &DIMS_SQUARE,
        1000,
        1000,
    );
    // Anchor is (500000, 500000); the projected span is 550000 on each axis,
    // clamped at the top-left of the image where it sticks out.
    assert_eq!(out.max_x, 500_000);
    assert_eq!(out.max_y, 500_000);
    assert_eq!(out.min_x, 0);
    assert_eq!(out.min_y, 0);
}

#[test]
fn locked_edge_drag_centers_the_derived_dimension() {
    // Driving the right edge under a square ratio on a square image: the
    // height follows the new width, laid out about the old center line.
    let r = rect(200_000, 200_000, 800_000, 800_000);
    let out = resolve_drag(
        &r,
        ResizeHandle::Right,
        100_000,
        0,
        Some(Ratio { w: 1, h: 1 }),
        &DIMS_SQUARE,
        1000,
        1000,
    );
    assert_eq!(out, rect(200_000, 150_000, 900_000, 850_000));
}

#[test]
fn locked_bottom_edge_drag_derives_width() {
    let r = rect(200_000, 200_000, 800_000, 800_000);
    let out = resolve_drag(
        &r,
        ResizeHandle::Bottom,
        0,
        -100_000,
        Some(Ratio { w: 1, h: 1 }),
        &DIMS_SQUARE,
        1000,
        1000,
    );
    // Height shrinks to 0.5; width follows, centered on x = 0.5.
    assert_eq!(out, rect(250_000, 200_000, 750_000, 700_000));
}

#[test]
fn free_bottom_left_drag_moves_two_coordinates() {
    let r = rect(200_000, 200_000, 800_000, 800_000);
    let out = resolve_drag(&r, ResizeHandle::BottomLeft, -50_000, 100_000, None, &DIMS_SQUARE, 1000, 1000);
    assert_eq!(out, rect(150_000, 200_000, 800_000, 900_000));
}

#[test]
fn locked_top_right_drag_anchors_bottom_left() {
    let r = rect(200_000, 200_000, 800_000, 800_000);
    let out = resolve_drag(
        &r,
        ResizeHandle::TopRight,
        100_000,
        0,
        Some(Ratio { w: 1, h: 1 }),
        &DIMS_SQUARE,
        1000,
        1000,
    );
    assert_eq!(out, rect(200_000, 150_000, 850_000, 800_000));
}

#[test]
fn locked_bottom_left_drag_anchors_top_right() {
    let r = rect(200_000, 200_000, 800_000, 800_000);
    let out = resolve_drag(
        &r,
        ResizeHandle::BottomLeft,
        -100_000,
        0,
        Some(Ratio { w: 1, h: 1 }),
        &DIMS_SQUARE,
        1000,
        1000,
    );
    assert_eq!(out, rect(150_000, 200_000, 800_000, 850_000));
}

#[test]
fn locked_left_edge_drag_centers_height() {
    let r = rect(200_000, 200_000, 800_000, 800_000);
    let out = resolve_drag(
        &r,
        ResizeHandle::Left,
        -100_000,
        0,
        Some(Ratio { w: 1, h: 1 }),
        &DIMS_SQUARE,
        1000,
        1000,
    );
    assert_eq!(out, rect(100_000, 150_000, 800_000, 850_000));
}

#[test]
fn locked_top_edge_drag_centers_width() {
    let r = rect(200_000, 200_000, 800_000, 800_000);
    let out = resolve_drag(
        &r,
        ResizeHandle::Top,
        0,
        100_000,
        Some(Ratio { w: 1, h: 1 }),
        &DIMS_SQUARE,
        1000,
        1000,
    );
    assert_eq!(out, rect(250_000, 300_000, 750_000, 800_000));
}
