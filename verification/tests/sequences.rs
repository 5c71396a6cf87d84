use led_effects::color::Hsv;
use led_effects::color::Rgb8;
use led_effects::sequence::ConfigWithMainColor;
use led_effects::sequence::ConfigWithOffset;
use led_effects::sequence::ConfigWithSecondaryColor;
use led_effects::sequence::Duplicate;
use led_effects::sequence::DuplicateConfig;
use led_effects::sequence::Gradient;
use led_effects::sequence::GradientConfig;
use led_effects::sequence::Pattern;
use led_effects::sequence::PatternConfig;
use led_effects::sequence::Rainbow;
use led_effects::sequence::RainbowConfig;
use led_effects::sequence::Sequence;
use led_effects::sequence::Symmetry;
use led_effects::sequence::Unicolor;
use led_effects::sequence::UnicolorConfig;
use led_effects::sequence::render;

fn rgb(r: u8, g: u8, b: u8) -> Rgb8 {
    Rgb8 { r, g, b }
}

const BLACK: Rgb8 = Rgb8 { r: 0, g: 0, b: 0 };

#[test]
fn unicolor_renders_same_color_everywhere() {
    let config = UnicolorConfig { color: rgb(17, 200, 3) };
    let frame = render::<Unicolor<5>, 5>(config);
    assert_eq!(frame.len(), 5);
    for color in frame {
        assert_eq!(color, rgb(17, 200, 3));
    }
}

#[test]
fn unicolor_stops_after_n_elements() {
    let mut sequence = Unicolor::<2>::new(UnicolorConfig { color: rgb(1, 2, 3) });
    assert_eq!(sequence.next(), Some(rgb(1, 2, 3)));
    assert_eq!(sequence.next(), Some(rgb(1, 2, 3)));
    assert_eq!(sequence.next(), None);
    assert_eq!(sequence.next(), None);
}

#[test]
fn gradient_endpoints_are_exact() {
    let config = GradientConfig { start_color: rgb(3, 250, 77), end_color: rgb(255, 0, 128) };
    let frame = render::<Gradient<8>, 8>(config);
    assert_eq!(frame[0], rgb(3, 250, 77));
    assert_eq!(frame[7], rgb(255, 0, 128));
}

#[test]
fn gradient_interpolates_with_truncation() {
    let config = GradientConfig { start_color: rgb(0, 200, 10), end_color: rgb(255, 100, 0) };
    let frame = render::<Gradient<8>, 8>(config);
    // red channel: 0 + i * 255 / 7
    let reds: Vec<u8> = frame.iter().map(|c| c.r).collect();
    assert_eq!(reds, vec![0, 36, 72, 109, 145, 182, 218, 255]);
    // a decreasing channel truncates toward zero: 10 + i * (-10) / 3
    let config = GradientConfig { start_color: rgb(10, 0, 0), end_color: rgb(0, 0, 0) };
    let frame = render::<Gradient<4>, 4>(config);
    let reds: Vec<u8> = frame.iter().map(|c| c.r).collect();
    assert_eq!(reds, vec![10, 7, 4, 0]);
}

#[test]
fn gradient_with_one_element_is_degenerate() {
    let config = GradientConfig { start_color: rgb(9, 8, 7), end_color: rgb(200, 100, 50) };
    let frame = render::<Gradient<1>, 1>(config);
    assert_eq!(frame, vec![rgb(9, 8, 7)]);
}

#[test]
fn gradient_config_colors() {
    let mut config = GradientConfig { start_color: rgb(1, 1, 1), end_color: rgb(2, 2, 2) };
    assert_eq!(config.main_color(), rgb(1, 1, 1));
    assert_eq!(config.secondary_color(), rgb(2, 2, 2));
    config.set_main_color(rgb(9, 0, 0));
    config.set_secondary_color(rgb(0, 9, 0));
    assert_eq!(config.main_color(), rgb(9, 0, 0));
    assert_eq!(config.secondary_color(), rgb(0, 9, 0));
}

#[test]
fn rainbow_advances_hue_per_element() {
    let config = RainbowConfig { first_color: Hsv { hue: 10, sat: 200, val: 100 }, range: 255 };
    let frame = render::<Rainbow<4>, 4>(config);
    // hue increment is 255 / 4 == 63
    for (i, hue) in [10u8, 73, 136, 199].iter().enumerate() {
        let expected = smart_leds::hsv::hsv2rgb(smart_leds::hsv::Hsv {
            hue: *hue,
            sat: 200,
            val: 100,
        });
        assert_eq!(frame[i], rgb(expected.r, expected.g, expected.b));
    }
}

#[test]
fn rainbow_hue_wraps_modulo_256() {
    let config = RainbowConfig { first_color: Hsv { hue: 250, sat: 255, val: 255 }, range: 200 };
    let frame = render::<Rainbow<2>, 2>(config);
    // hue increment is 200 / 2 == 100; the second hue is (250 + 100) % 256
    let expected = smart_leds::hsv::hsv2rgb(smart_leds::hsv::Hsv { hue: 94, sat: 255, val: 255 });
    assert_eq!(frame[1], rgb(expected.r, expected.g, expected.b));
}

#[test]
fn pattern_renders_mask_with_offset() {
    let config = PatternConfig {
        color: rgb(50, 60, 70),
        pattern: [true, false, true],
        min_offset: -1,
        max_offset: 1,
        offset: 0,
    };
    let frame = render::<Pattern<3>, 3>(config);
    assert_eq!(frame, vec![rgb(50, 60, 70), BLACK, rgb(50, 60, 70)]);

    let mut shifted = config;
    assert!(shifted.set_offset(1));
    let frame = render::<Pattern<3>, 3>(shifted);
    assert_eq!(frame, vec![BLACK, rgb(50, 60, 70), BLACK]);
}

#[test]
fn pattern_offset_can_miss_every_index() {
    let config = PatternConfig {
        color: rgb(50, 60, 70),
        pattern: [true, true, true],
        min_offset: -5,
        max_offset: 5,
        offset: -4,
    };
    let frame = render::<Pattern<3>, 3>(config);
    assert_eq!(frame, vec![BLACK, BLACK, BLACK]);
}

#[test]
fn pattern_offset_accessors() {
    let mut config = PatternConfig {
        color: rgb(1, 2, 3),
        pattern: [true, false],
        min_offset: -2,
        max_offset: 3,
        offset: 0,
    };
    assert_eq!(config.min_offset(), -2);
    assert_eq!(config.max_offset(), 3);
    assert_eq!(config.offset(), 0);
    assert_eq!(config.offset_range(), 5);
    assert!(!config.set_offset(4));
    assert_eq!(config.offset(), 0);
    assert!(config.increment_offset(2));
    assert_eq!(config.offset(), 2);
    assert!(config.increment_offset(3));
    assert_eq!(config.offset(), 5);
    // the offset left the valid range: further increments are refused
    assert!(!config.increment_offset(1));
    assert_eq!(config.offset(), 5);
}

#[test]
fn duplicate_repeats_inner_rendering() {
    let inner = GradientConfig { start_color: rgb(0, 90, 4), end_color: rgb(90, 0, 4) };
    let config = DuplicateConfig { config: inner, duplicates: 2 };
    let frame = render::<Duplicate<Gradient<3>, 6, 3>, 6>(config);
    let expected = render::<Gradient<3>, 3>(inner);
    assert_eq!(frame[..3], expected[..]);
    assert_eq!(frame[3..], expected[..]);
}

#[test]
fn duplicate_config_forwards_main_color() {
    let inner = GradientConfig { start_color: rgb(0, 90, 4), end_color: rgb(90, 0, 4) };
    let mut config = DuplicateConfig { config: inner, duplicates: 2 };
    assert_eq!(config.main_color(), rgb(0, 90, 4));
    config.set_main_color(rgb(7, 7, 7));
    assert_eq!(config.config.start_color, rgb(7, 7, 7));
}

#[test]
fn symmetry_mirrors_even_strip() {
    let inner = GradientConfig { start_color: rgb(0, 0, 0), end_color: rgb(90, 90, 90) };
    let frame = render::<Symmetry<Gradient<3>, 6, 3>, 6>(inner);
    let reds: Vec<u8> = frame.iter().map(|c| c.r).collect();
    assert_eq!(reds, vec![0, 45, 90, 90, 45, 0]);
}

#[test]
fn symmetry_skips_center_on_odd_strip() {
    let inner = GradientConfig { start_color: rgb(0, 0, 0), end_color: rgb(90, 90, 90) };
    let frame = render::<Symmetry<Gradient<3>, 5, 3>, 5>(inner);
    let reds: Vec<u8> = frame.iter().map(|c| c.r).collect();
    assert_eq!(reds, vec![0, 45, 90, 45, 0]);
}

#[test]
fn symmetry_exposes_inner_config() {
    let inner = UnicolorConfig { color: rgb(4, 5, 6) };
    let sequence = Symmetry::<Unicolor<2>, 4, 2>::new(inner);
    assert_eq!(sequence.config(), inner);
}

#[test]
fn interpolate_truncates_toward_zero() {
    // downward interpolation truncates toward zero, not toward minus infinity
    assert_eq!(led_effects::interpolate::interpolate(10, 0, 1, 3), 7);
    assert_eq!(led_effects::interpolate::interpolate(10, 0, 2, 3), 4);
    assert_eq!(led_effects::interpolate::interpolate(10, 0, 3, 3), 0);
    assert_eq!(led_effects::interpolate::interpolate(0, 10, 1, 3), 3);
    assert_eq!(led_effects::interpolate::interpolate(200, 200, 1, 2), 200);
}

#[test]
fn symmetry_with_one_element() {
    let inner = UnicolorConfig { color: rgb(8, 8, 8) };
    let frame = render::<Symmetry<Unicolor<1>, 1, 1>, 1>(inner);
    assert_eq!(frame, vec![rgb(8, 8, 8)]);
}

#[test]
fn duplicate_with_one_copy() {
    let inner = GradientConfig { start_color: rgb(0, 0, 0), end_color: rgb(60, 0, 0) };
    let config = DuplicateConfig { config: inner, duplicates: 1 };
    let frame = render::<Duplicate<Gradient<3>, 3, 3>, 3>(config);
    assert_eq!(frame, render::<Gradient<3>, 3>(inner));
}

#[test]
fn unicolor_config_main_color() {
    let mut config = UnicolorConfig { color: rgb(1, 2, 3) };
    assert_eq!(config.main_color(), rgb(1, 2, 3));
    config.set_main_color(rgb(4, 5, 6));
    assert_eq!(config.color, rgb(4, 5, 6));
}
