use led_effects::chaser::Chaser;
use led_effects::chaser::HueDistribution;
use led_effects::chaser::OffsetProgression;
use led_effects::chaser::RainbowChaser;
use led_effects::chaser::RandomUnicolor;
use led_effects::chaser::TransitionTimeDistribution;
use led_effects::chaser::UnicolorTransition;
use led_effects::color::Hsv;
use led_effects::color::Rgb8;
use led_effects::sequence::ConfigWithOffset;
use led_effects::sequence::Pattern;
use led_effects::sequence::PatternConfig;
use led_effects::sequence::Sequence;
use led_effects::sequence::Unicolor;
use led_effects::sequence::UnicolorConfig;
use led_effects::time::Duration;
use led_effects::time::TimeConfig;

fn rgb(r: u8, g: u8, b: u8) -> Rgb8 {
    Rgb8 { r, g, b }
}

/// A time configuration with exactly `steps` transition steps.
fn steps(steps: u32) -> TimeConfig {
    TimeConfig::new(steps, Duration::seconds(1))
}

#[test]
fn transition_interpolates_and_exhausts() {
    let config = UnicolorConfig { color: rgb(0, 0, 0) };
    let mut transition =
        UnicolorTransition::<3>::new(config, rgb(0, 200, 100), rgb(100, 0, 100), &steps(4));
    let expected_reds = [0u8, 25, 50, 75];
    let expected_greens = [200u8, 150, 100, 50];
    for i in 0..4 {
        let sequence = transition.next().expect("transition should yield a frame");
        let color = sequence.config().color;
        assert_eq!(color.r, expected_reds[i]);
        assert_eq!(color.g, expected_greens[i]);
        assert_eq!(color.b, 100);
    }
    // the transition stops one truncation step short of the end color, then
    // signals exhaustion
    assert!(transition.next().is_none());
    assert!(transition.next().is_none());
    assert_eq!(transition.end_color(), rgb(100, 0, 100));
}

#[test]
fn transition_rescales_step_on_time_config_change() {
    let config = UnicolorConfig { color: rgb(0, 0, 0) };
    let mut transition =
        UnicolorTransition::<1>::new(config, rgb(0, 0, 0), rgb(200, 0, 0), &steps(10));
    for _ in 0..3 {
        assert!(transition.next().is_some());
    }
    // step 3 of 10 becomes step 3 * 20 / 10 == 6 of 20
    transition.set_time_config(&steps(20));
    let mut remaining: u32 = 0;
    while transition.next().is_some() {
        remaining += 1;
    }
    assert_eq!(remaining, 14);
}

#[test]
fn transition_keeps_position_on_identical_time_config() {
    let config = UnicolorConfig { color: rgb(0, 0, 0) };
    let mut transition =
        UnicolorTransition::<1>::new(config, rgb(0, 0, 0), rgb(200, 0, 0), &steps(10));
    for _ in 0..4 {
        assert!(transition.next().is_some());
    }
    // installing the chaser's own time configuration moves nothing
    transition.set_time_config(&steps(10));
    let mut remaining: u32 = 0;
    while transition.next().is_some() {
        remaining += 1;
    }
    assert_eq!(remaining, 6);
}

#[test]
fn rainbow_chaser_cycles_hues() {
    let config = UnicolorConfig { color: rgb(0, 0, 0) };
    let mut chaser =
        RainbowChaser::<Unicolor<3>, 3>::new(config, Hsv { hue: 0, sat: 255, val: 255 }, &steps(4));
    // hues 0, 63, 127, 191 (truncations of step * 255 / 4), then back to 0
    for hue in [0u8, 63, 127, 191, 0] {
        let sequence = chaser.next().expect("rainbow chaser never exhausts");
        let expected =
            smart_leds::hsv::hsv2rgb(smart_leds::hsv::Hsv { hue, sat: 255, val: 255 });
        assert_eq!(sequence.config().color, rgb(expected.r, expected.g, expected.b));
    }
}

#[test]
fn rainbow_chaser_wraps_start_hue() {
    let config = UnicolorConfig { color: rgb(0, 0, 0) };
    let mut chaser = RainbowChaser::<Unicolor<1>, 1>::new(
        config,
        Hsv { hue: 200, sat: 255, val: 255 },
        &steps(2),
    );
    // hues 200, then (200 + 127) % 256 == 71
    for hue in [200u8, 71] {
        let sequence = chaser.next().expect("rainbow chaser never exhausts");
        let expected =
            smart_leds::hsv::hsv2rgb(smart_leds::hsv::Hsv { hue, sat: 255, val: 255 });
        assert_eq!(sequence.config().color, rgb(expected.r, expected.g, expected.b));
    }
}

fn pattern_config() -> PatternConfig<4> {
    PatternConfig {
        color: rgb(10, 20, 30),
        pattern: [true, false, false, false],
        min_offset: 0,
        max_offset: 2,
        offset: 0,
    }
}

#[test]
fn offset_progression_jumps_when_steps_are_few() {
    // 2 steps for an offset range of 2: the offset jumps by 1 every step
    let mut chaser = OffsetProgression::<Pattern<4>, 4>::new(pattern_config(), true, &steps(2));
    let offsets: [i32; 2] = [1, 2];
    for expected in offsets {
        let sequence = chaser.next().expect("progression not yet exhausted");
        assert_eq!(sequence.config().offset(), expected);
    }
    assert!(chaser.next().is_none());
}

#[test]
fn offset_progression_holds_when_steps_are_many() {
    // 4 steps for an offset range of 2: the offset moves every 2 steps
    let mut chaser = OffsetProgression::<Pattern<4>, 4>::new(pattern_config(), true, &steps(4));
    let offsets: [i32; 4] = [1, 1, 2, 2];
    for expected in offsets {
        let sequence = chaser.next().expect("progression not yet exhausted");
        assert_eq!(sequence.config().offset(), expected);
    }
    assert!(chaser.next().is_none());
}

#[test]
fn offset_progression_can_decrement() {
    let mut config = pattern_config();
    assert!(config.set_offset(2));
    let mut chaser = OffsetProgression::<Pattern<4>, 4>::new(config, false, &steps(2));
    let offsets: [i32; 2] = [1, 0];
    for expected in offsets {
        let sequence = chaser.next().expect("progression not yet exhausted");
        assert_eq!(sequence.config().offset(), expected);
    }
    assert!(chaser.next().is_none());
}

#[test]
fn random_unicolor_never_exhausts() {
    let hue_distr = HueDistribution { low: 0, high: 256 };
    let time_distr = TransitionTimeDistribution { low: 10, high: 30 };
    let mut chaser = RandomUnicolor::<5>::new(100, hue_distr, time_distr);
    for _ in 0..100 {
        let sequence = chaser.next().expect("a random unicolor chaser never exhausts");
        let mut count: u32 = 0;
        let mut s = sequence;
        while s.next().is_some() {
            count += 1;
        }
        assert_eq!(count, 5);
    }
}

#[test]
fn random_unicolor_survives_reconfiguration() {
    let hue_distr = HueDistribution { low: -50, high: 50 };
    let time_distr = TransitionTimeDistribution { low: 10, high: 30 };
    let mut chaser = RandomUnicolor::<2>::new(100, hue_distr, time_distr);
    for _ in 0..10 {
        assert!(chaser.next().is_some());
    }
    chaser.set_temperature(-20);
    chaser.set_temperature(100);
    for _ in 0..10 {
        assert!(chaser.next().is_some());
    }
    // median 60 ms at 100 frames per second: bounds (20, 100)
    let tc = TimeConfig::new(100, Duration::milliseconds(60));
    chaser.set_time_config(&tc);
    for _ in 0..50 {
        assert!(chaser.next().is_some());
    }
}
