use cropkit::aspect::AspectRatioMode;
use cropkit::aspect::ImageDims;
use cropkit::aspect::Ratio;
use cropkit::aspect::clamp_custom;
use cropkit::aspect::resolve;
use cropkit::aspect::to_normalized_aspect;
use cropkit::aspect::to_pixel_aspect;

const ALL_MODES: [AspectRatioMode; 12] = [
    AspectRatioMode::Free,
    AspectRatioMode::Original,
    AspectRatioMode::Square,
    AspectRatioMode::R3_2,
    AspectRatioMode::R4_3,
    AspectRatioMode::R16_9,
    AspectRatioMode::R16_10,
    AspectRatioMode::R2_3,
    AspectRatioMode::R3_4,
    AspectRatioMode::R9_16,
    AspectRatioMode::R10_16,
    AspectRatioMode::Custom,
];

#[test]
fn counterpart_swaps_orientation() {
    assert_eq!(AspectRatioMode::R3_2.counterpart(), AspectRatioMode::R2_3);
    assert_eq!(AspectRatioMode::R4_3.counterpart(), AspectRatioMode::R3_4);
    assert_eq!(AspectRatioMode::R16_9.counterpart(), AspectRatioMode::R9_16);
    assert_eq!(AspectRatioMode::R16_10.counterpart(), AspectRatioMode::R10_16);
    assert_eq!(AspectRatioMode::Free.counterpart(), AspectRatioMode::Free);
    assert_eq!(AspectRatioMode::Original.counterpart(), AspectRatioMode::Original);
    assert_eq!(AspectRatioMode::Square.counterpart(), AspectRatioMode::Square);
    assert_eq!(AspectRatioMode::Custom.counterpart(), AspectRatioMode::Custom);
}

#[test]
fn counterpart_is_an_involution() {
    for m in ALL_MODES {
        assert_eq!(m.counterpart().counterpart(), m);
    }
}

#[test]
fn resolve_gives_each_mode_its_ratio() {
    let dims = ImageDims { w: 1920, h: 1080 };
    assert_eq!(resolve(AspectRatioMode::Free, 5, 2, &dims), None);
    assert_eq!(resolve(AspectRatioMode::Original, 5, 2, &dims), Some(Ratio { w: 1920, h: 1080 }));
    assert_eq!(resolve(AspectRatioMode::Square, 5, 2, &dims), Some(Ratio { w: 1, h: 1 }));
    assert_eq!(resolve(AspectRatioMode::R3_2, 5, 2, &dims), Some(Ratio { w: 3, h: 2 }));
    assert_eq!(resolve(AspectRatioMode::R4_3, 5, 2, &dims), Some(Ratio { w: 4, h: 3 }));
    assert_eq!(resolve(AspectRatioMode::R16_9, 5, 2, &dims), Some(Ratio { w: 16, h: 9 }));
    assert_eq!(resolve(AspectRatioMode::R16_10, 5, 2, &dims), Some(Ratio { w: 16, h: 10 }));
    assert_eq!(resolve(AspectRatioMode::R2_3, 5, 2, &dims), Some(Ratio { w: 2, h: 3 }));
    assert_eq!(resolve(AspectRatioMode::R3_4, 5, 2, &dims), Some(Ratio { w: 3, h: 4 }));
    assert_eq!(resolve(AspectRatioMode::R9_16, 5, 2, &dims), Some(Ratio { w: 9, h: 16 }));
    assert_eq!(resolve(AspectRatioMode::R10_16, 5, 2, &dims), Some(Ratio { w: 10, h: 16 }));
    assert_eq!(resolve(AspectRatioMode::Custom, 5, 2, &dims), Some(Ratio { w: 5, h: 2 }));
}

#[test]
fn custom_components_clamp_at_the_boundary() {
    assert_eq!(clamp_custom(0), 1);
    assert_eq!(clamp_custom(1), 1);
    assert_eq!(clamp_custom(50), 50);
    assert_eq!(clamp_custom(100), 100);
    assert_eq!(clamp_custom(101), 100);
    assert_eq!(clamp_custom(u32::MAX), 100);
}

#[test]
fn normalized_aspect_rescales_by_image_shape() {
    let dims = ImageDims { w: 1920, h: 1080 };
    let square = Ratio { w: 1, h: 1 };
    let n = to_normalized_aspect(&square, &dims);
    assert_eq!(n, Ratio { w: 1080, h: 1920 });
}

#[test]
fn normalized_aspect_round_trips() {
    let samples = [
        (Ratio { w: 16, h: 9 }, ImageDims { w: 1920, h: 1080 }),
        (Ratio { w: 5, h: 2 }, ImageDims { w: 643, h: 977 }),
        (Ratio { w: 4000, h: 3000 }, ImageDims { w: 4000, h: 3000 }),
    ];
    for (r, dims) in samples {
        let n = to_normalized_aspect(&r, &dims);
        let p = to_pixel_aspect(&n, &dims);
        assert_eq!(p.w * r.h, r.w * p.h);
    }
}

#[test]
fn mode_labels_match_their_ratios() {
    assert_eq!(AspectRatioMode::Free.label(), "Free");
    assert_eq!(AspectRatioMode::Original.label(), "Original");
    assert_eq!(AspectRatioMode::Square.label(), "1:1");
    assert_eq!(AspectRatioMode::R16_10.label(), "16:10");
    assert_eq!(AspectRatioMode::R9_16.label(), "9:16");
    assert_eq!(AspectRatioMode::Custom.label(), "Custom");
}

#[test]
fn default_mode_is_free() {
    assert_eq!(AspectRatioMode::default(), AspectRatioMode::Free);
}
