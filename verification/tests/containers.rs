use led_effects::chaser::Chaser;
use led_effects::chaser::ChaserEnum;
use led_effects::chaser::RainbowChaser;
use led_effects::chaser::UnicolorTransition;
use led_effects::color::Hsv;
use led_effects::color::Rgb8;
use led_effects::sequence::Gradient;
use led_effects::sequence::GradientConfig;
use led_effects::sequence::OneParameterSequenceConfigEnum;
use led_effects::sequence::OneParameterSequenceEnum;
use led_effects::sequence::Sequence;
use led_effects::sequence::UnicolorConfig;
use led_effects::sequence::render;
use led_effects::time::Duration;
use led_effects::time::TimeConfig;

fn rgb(r: u8, g: u8, b: u8) -> Rgb8 {
    Rgb8 { r, g, b }
}

fn steps(steps: u32) -> TimeConfig {
    TimeConfig::new(steps, Duration::seconds(1))
}

#[test]
fn sequence_enum_renders_like_its_variant() {
    let inner = GradientConfig { start_color: rgb(0, 10, 20), end_color: rgb(120, 10, 0) };
    let config = OneParameterSequenceConfigEnum::Gradient(inner);
    let frame = render::<OneParameterSequenceEnum<4>, 4>(config);
    let expected = render::<Gradient<4>, 4>(inner);
    assert_eq!(frame, expected);
}

#[test]
fn sequence_enum_keeps_its_variant_config() {
    let config = OneParameterSequenceConfigEnum::Unicolor(UnicolorConfig { color: rgb(5, 6, 7) });
    let sequence = OneParameterSequenceEnum::<3>::new(config);
    match sequence.config() {
        OneParameterSequenceConfigEnum::Unicolor(c) => assert_eq!(c.color, rgb(5, 6, 7)),
        _ => panic!("the enum changed its variant"),
    }
}

#[test]
fn chaser_enum_forwards_transition() {
    let config = UnicolorConfig { color: rgb(0, 0, 0) };
    let transition =
        UnicolorTransition::<2>::new(config, rgb(0, 0, 0), rgb(30, 0, 0), &steps(3));
    let mut chaser = ChaserEnum::Transition(transition);
    let mut frames: u32 = 0;
    while chaser.next().is_some() {
        frames += 1;
    }
    assert_eq!(frames, 3);
}

#[test]
fn chaser_enum_forwards_time_config_change() {
    let config = UnicolorConfig { color: rgb(0, 0, 0) };
    let transition =
        UnicolorTransition::<2>::new(config, rgb(0, 0, 0), rgb(30, 0, 0), &steps(10));
    let mut chaser = ChaserEnum::Transition(transition);
    for _ in 0..5 {
        assert!(chaser.next().is_some());
    }
    // step 5 of 10 becomes step 1 of 2: one frame remains
    chaser.set_time_config(&steps(2));
    assert!(chaser.next().is_some());
    assert!(chaser.next().is_none());
}

#[test]
fn chaser_enum_forwards_rainbow() {
    let config = UnicolorConfig { color: rgb(0, 0, 0) };
    let rainbow = RainbowChaser::<led_effects::sequence::Unicolor<2>, 2>::new(
        config,
        Hsv { hue: 0, sat: 255, val: 255 },
        &steps(4),
    );
    let mut chaser = ChaserEnum::Rainbow(rainbow);
    for _ in 0..10 {
        assert!(chaser.next().is_some());
    }
}
