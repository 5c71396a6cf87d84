use led_effects::time::Duration;
use led_effects::time::TimeConfig;

#[test]
fn transition_steps_from_milliseconds() {
    let tc = TimeConfig::new(60, Duration::milliseconds(500));
    assert_eq!(tc.transition_steps(), 30);
}

#[test]
fn transition_steps_from_seconds() {
    let tc = TimeConfig::new(60, Duration::seconds(2));
    assert_eq!(tc.transition_steps(), 120);
}

#[test]
fn transition_steps_truncate() {
    // 3 half-seconds at 11 frames per second: 16.5 frames, truncated
    let tc = TimeConfig::new(11, Duration { ticks: 3, num: 1, denom: 2 });
    assert_eq!(tc.transition_steps(), 16);
}

#[test]
fn transition_steps_can_be_zero() {
    let tc = TimeConfig::new(1, Duration::milliseconds(500));
    assert_eq!(tc.transition_steps(), 0);
}
