use cropkit::aspect::AspectRatioMode;
use cropkit::aspect::ImageDims;
use cropkit::export::crop_window;
use cropkit::geom::NormRect;
use cropkit::geom::SCALE;
use cropkit::handle::ResizeHandle;
use cropkit::handle::ScreenRect;
use cropkit::session::CropSession;

fn rect(min_x: i64, min_y: i64, max_x: i64, max_y: i64) -> NormRect {
    NormRect { min_x, min_y, max_x, max_y }
}

#[test]
fn new_session_starts_free_with_custom_4_3() {
    let s = CropSession::new();
    assert_eq!(s.mode, AspectRatioMode::Free);
    assert_eq!(s.custom_w, 4);
    assert_eq!(s.custom_h, 3);
    assert!(!s.is_portrait);
    assert_eq!(s.selected, None);
    assert_eq!(s.dims, None);
}

#[test]
fn loading_an_image_installs_the_full_rect() {
    let mut s = CropSession::new();
    s.load_image(1920, 1080);
    assert_eq!(s.dims, Some(ImageDims { w: 1920, h: 1080 }));
    assert_eq!(s.rect, rect(0, 0, SCALE, SCALE));
    assert_eq!(s.selected, None);
}

#[test]
fn applying_matching_ratio_keeps_full_rect() {
    // A 4:3 image under the 4:3 mode: the full rectangle already has the
    // target ratio and stays exactly as it is.
    let mut s = CropSession::new();
    s.load_image(4000, 3000);
    s.set_mode(AspectRatioMode::R4_3);
    assert_eq!(s.rect, rect(0, 0, SCALE, SCALE));
    let dims = s.dims.unwrap();
    let win = crop_window(&s.rect, &dims);
    assert_eq!(win, (0, 0, 4000, 3000));
}

#[test]
fn applying_square_mode_yields_square_pixel_crop() {
    // A 16:9 image under the square mode: the normalized width becomes
    // 1080/1920 = 0.5625, centered, and the exported crop is square.
    let mut s = CropSession::new();
    s.load_image(1920, 1080);
    s.set_mode(AspectRatioMode::Square);
    assert_eq!(s.rect, rect(218_750, 0, 781_250, SCALE));
    let dims = s.dims.unwrap();
    let (x, y, w, h) = crop_window(&s.rect, &dims);
    assert_eq!((x, y), (420, 0));
    assert_eq!(w, 1080);
    assert_eq!(h, 1080);
}

#[test]
fn extreme_custom_ratio_clamps_at_the_boundary() {
    // A 5:2 custom ratio on a square image, then a corner drag far past
    // the image edge: the rectangle is clamped inside the unit square and
    // its displayed ratio may deviate there.
    let mut s = CropSession::new();
    s.load_image(1000, 1000);
    s.set_mode(AspectRatioMode::Custom);
    s.set_custom_ratio(5, 2);
    assert_eq!(s.rect, rect(0, 300_000, SCALE, 700_000));
    s.selected = Some(ResizeHandle::BottomRight);
    s.drag_update(1_000_000_000, 1_000_000_000, 1000, 1000);
    assert_eq!(s.rect, rect(0, 300_000, SCALE, SCALE));
    // 5:2 would need width == 2.5 * height; the clamped crop is 1.0 x 0.7.
    let width = s.rect.max_x - s.rect.min_x;
    let height = s.rect.max_y - s.rect.min_y;
    assert_ne!(width * 2, height * 5);
}

#[test]
fn toggle_orientation_swaps_named_ratio() {
    let mut s = CropSession::new();
    s.load_image(1000, 1000);
    s.set_mode(AspectRatioMode::R16_9);
    s.toggle_orientation();
    assert_eq!(s.mode, AspectRatioMode::R9_16);
    assert!(s.is_portrait);
    s.toggle_orientation();
    assert_eq!(s.mode, AspectRatioMode::R16_9);
    assert!(!s.is_portrait);
}

#[test]
fn toggle_orientation_swaps_custom_pair() {
    let mut s = CropSession::new();
    s.load_image(1000, 1000);
    s.set_mode(AspectRatioMode::Custom);
    s.set_custom_ratio(5, 2);
    s.toggle_orientation();
    assert_eq!(s.mode, AspectRatioMode::Custom);
    assert_eq!((s.custom_w, s.custom_h), (2, 5));
}

#[test]
fn out_of_range_custom_input_is_clamped() {
    let mut s = CropSession::new();
    s.load_image(1000, 1000);
    s.set_custom_ratio(0, 500);
    assert_eq!((s.custom_w, s.custom_h), (1, 100));
}

#[test]
fn drag_round_trip_through_the_session() {
    let mut s = CropSession::new();
    s.load_image(1000, 1000);
    s.rect = rect(200_000, 200_000, 800_000, 800_000);
    let disp = ScreenRect { min_x: 0, min_y: 0, max_x: 1000, max_y: 1000 };
    s.begin_drag(500, 500, &disp);
    assert_eq!(s.selected, Some(ResizeHandle::Center));
    s.drag_update(100_000, 50_000, 1000, 1000);
    assert_eq!(s.rect, rect(300_000, 250_000, 900_000, 850_000));
    s.end_drag();
    assert_eq!(s.selected, None);
    // Ending a drag with nothing selected is a no-op.
    s.end_drag();
    assert_eq!(s.selected, None);
}

#[test]
fn begin_drag_outside_rect_selects_nothing() {
    let mut s = CropSession::new();
    s.load_image(1000, 1000);
    s.rect = rect(200_000, 200_000, 800_000, 800_000);
    let disp = ScreenRect { min_x: 0, min_y: 0, max_x: 1000, max_y: 1000 };
    s.begin_drag(50, 50, &disp);
    assert_eq!(s.selected, None);
    s.drag_update(100_000, 50_000, 1000, 1000);
    assert_eq!(s.rect, rect(200_000, 200_000, 800_000, 800_000));
}

#[test]
fn free_mode_leaves_rect_unchanged_on_apply() {
    let mut s = CropSession::new();
    s.load_image(1000, 1000);
    s.rect = rect(123_456, 234_567, 654_321, 765_432);
    s.apply_aspect_ratio();
    assert_eq!(s.rect, rect(123_456, 234_567, 654_321, 765_432));
}

#[test]
fn export_window_rounds_to_nearest_pixel() {
    let r = rect(0, 0, 333_333, SCALE);
    let dims = ImageDims { w: 3, h: 3 };
    assert_eq!(crop_window(&r, &dims), (0, 0, 1, 3));
}

#[test]
fn export_window_is_never_empty() {
    // A degenerate rectangle collapsed at the far corner still exports a
    // one-pixel window inside the image.
    let r = rect(SCALE, SCALE, SCALE, SCALE);
    let dims = ImageDims { w: 100, h: 100 };
    assert_eq!(crop_window(&r, &dims), (99, 99, 1, 1));
}

#[test]
fn export_window_quarter_crop() {
    let r = rect(250_000, 250_000, 750_000, 750_000);
    let dims = ImageDims { w: 100, h: 100 };
    assert_eq!(crop_window(&r, &dims), (25, 25, 50, 50));
}
