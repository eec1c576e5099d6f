use cropkit::geom::NormRect;
use cropkit::geom::SCALE;
use cropkit::geom::bounded_translate;
use cropkit::geom::clamp_rect;
use cropkit::geom::crop_screen_rect;
use cropkit::geom::move_rect;
use cropkit::geom::norm_to_screen;
use cropkit::geom::screen_to_norm;
use cropkit::handle::ResizeHandle;
use cropkit::handle::ScreenRect;
use cropkit::handle::hit_test;

fn rect(min_x: i64, min_y: i64, max_x: i64, max_y: i64) -> NormRect {
    NormRect { min_x, min_y, max_x, max_y }
}

#[test]
fn clamp_repairs_out_of_range_and_inverted() {
    let r = rect(-100, 1_200_000, 500_000, 300_000);
    let c = clamp_rect(r);
    assert_eq!(c, rect(0, 300_000, 500_000, 1_000_000));
}

#[test]
fn clamp_is_idempotent_on_samples() {
    let samples = [
        rect(-100, 1_200_000, 500_000, 300_000),
        rect(0, 0, SCALE, SCALE),
        rect(999_999, 2, 1, 999_998),
        rect(-5_000_000, -5_000_000, 5_000_000, 5_000_000),
    ];
    for r in samples {
        let once = clamp_rect(r);
        let twice = clamp_rect(once);
        assert_eq!(once, twice);
    }
}

#[test]
fn clamp_leaves_well_formed_rect_alone() {
    let r = rect(200_000, 100_000, 900_000, 650_000);
    assert_eq!(clamp_rect(r), r);
}

#[test]
fn bounded_translate_caps_huge_delta() {
    let r = rect(200_000, 200_000, 800_000, 800_000);
    let d = bounded_translate(&r, 5_000_000_000_000, -7_000_000_000_000);
    assert_eq!(d, (200_000, -200_000));
}

#[test]
fn move_never_leaves_unit_square() {
    let r = rect(200_000, 200_000, 800_000, 800_000);
    let m = move_rect(&r, 5_000_000_000_000, -7_000_000_000_000);
    assert_eq!(m, rect(400_000, 0, 1_000_000, 600_000));
    assert!(m.min_x >= 0 && m.min_y >= 0 && m.max_x <= SCALE && m.max_y <= SCALE);
}

#[test]
fn move_by_small_delta_translates_exactly() {
    let r = rect(200_000, 200_000, 800_000, 800_000);
    let m = move_rect(&r, 100_000, 50_000);
    assert_eq!(m, rect(300_000, 250_000, 900_000, 850_000));
}

#[test]
fn norm_screen_interpolation_round_trip() {
    let s = norm_to_screen(500_000, 100, 300);
    assert_eq!(s, 200);
    assert_eq!(screen_to_norm(200, 100, 300), 500_000);
    assert_eq!(norm_to_screen(0, 100, 300), 100);
    assert_eq!(norm_to_screen(SCALE, 100, 300), 300);
}

#[test]
fn crop_rect_maps_into_display_span() {
    let r = rect(250_000, 500_000, 750_000, 1_000_000);
    let disp = ScreenRect { min_x: 0, min_y: 0, max_x: 400, max_y: 200 };
    let s = crop_screen_rect(&r, &disp);
    assert_eq!(s, ScreenRect { min_x: 100, min_y: 100, max_x: 300, max_y: 200 });
}

#[test]
fn hit_test_picks_corners_first() {
    let r = ScreenRect { min_x: 100, min_y: 100, max_x: 300, max_y: 300 };
    assert_eq!(hit_test(102, 103, &r), Some(ResizeHandle::TopLeft));
    assert_eq!(hit_test(300, 100, &r), Some(ResizeHandle::TopRight));
    assert_eq!(hit_test(105, 105, &r), Some(ResizeHandle::TopLeft));
    assert_eq!(hit_test(295, 104, &r), Some(ResizeHandle::TopRight));
    assert_eq!(hit_test(99, 296, &r), Some(ResizeHandle::BottomLeft));
    assert_eq!(hit_test(303, 297, &r), Some(ResizeHandle::BottomRight));
}

#[test]
fn hit_test_finds_edges_inside_their_span() {
    let r = ScreenRect { min_x: 100, min_y: 100, max_x: 300, max_y: 300 };
    assert_eq!(hit_test(100, 200, &r), Some(ResizeHandle::Left));
    assert_eq!(hit_test(305, 200, &r), Some(ResizeHandle::Right));
    assert_eq!(hit_test(200, 96, &r), Some(ResizeHandle::Top));
    assert_eq!(hit_test(200, 295, &r), Some(ResizeHandle::Bottom));
}

#[test]
fn hit_test_interior_moves_and_outside_is_none() {
    let r = ScreenRect { min_x: 100, min_y: 100, max_x: 300, max_y: 300 };
    assert_eq!(hit_test(200, 200, &r), Some(ResizeHandle::Center));
    assert_eq!(hit_test(400, 200, &r), None);
    assert_eq!(hit_test(50, 50, &r), None);
}

#[test]
fn screen_to_norm_handles_points_outside_the_span() {
    assert_eq!(screen_to_norm(50, 100, 300), -250_000);
    assert_eq!(screen_to_norm(350, 100, 300), 1_250_000);
}
