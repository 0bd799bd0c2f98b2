use fusion_ahrs::{is_moving, StillnessTimer, STILLNESS_SECONDS, STILLNESS_THRESHOLD_BITS};
use libm::fabsf;

#[test]
fn timeout_is_five_seconds_of_samples() {
    assert_eq!(STILLNESS_SECONDS, 5);
    let timer = StillnessTimer::new(100);
    assert_eq!(timer.timeout(), 500);
    assert_eq!(timer.timer(), 0);
    assert_eq!(StillnessTimer::new(0).timeout(), 0);
    assert_eq!(StillnessTimer::new(u32::MAX / 5).timeout(), u32::MAX / 5 * 5);
}

#[test]
fn still_samples_count_up_then_update() {
    let mut timer = StillnessTimer::new(2);
    assert_eq!(timer.timeout(), 10);
    for expected in 1..=10u32 {
        assert!(!timer.step(false));
        assert_eq!(timer.timer(), expected);
    }
    for _ in 0..5 {
        assert!(timer.step(false));
        assert_eq!(timer.timer(), 10);
    }
}

#[test]
fn motion_resets_the_timer_and_never_updates() {
    let mut timer = StillnessTimer::new(1);
    for _ in 0..7 {
        timer.step(false);
    }
    assert_eq!(timer.timer(), 5);
    assert!(timer.step(false));
    assert!(!timer.step(true));
    assert_eq!(timer.timer(), 0);
    assert!(!timer.step(true));
    assert_eq!(timer.timer(), 0);
    for _ in 0..5 {
        assert!(!timer.step(false));
    }
    assert!(timer.step(false));
}

#[test]
fn zero_timeout_updates_on_every_still_sample() {
    let mut timer = StillnessTimer::new(0);
    assert!(timer.step(false));
    assert!(!timer.step(true));
    assert!(timer.step(false));
    assert_eq!(timer.timer(), 0);
}

#[test]
fn timer_stays_within_timeout() {
    let mut timer = StillnessTimer::new(3);
    for i in 0..200u32 {
        timer.step(i % 37 == 0);
        assert!(timer.timer() <= timer.timeout());
        assert_eq!(timer.timeout(), 15);
    }
}

struct Corrector {
    coefficient: f32,
    timer: StillnessTimer,
    bias: f32,
}

fn correct(corrector: &mut Corrector, rate: f32) -> f32 {
    let corrected = rate - corrector.bias;
    if corrector.timer.step(is_moving(corrected.to_bits(), 0, 0)) {
        corrector.bias += corrector.coefficient * corrected;
    }
    corrected
}

#[test]
fn constant_rate_below_threshold_becomes_the_bias() {
    let mut corrector = Corrector {
        coefficient: 2.0f32 * core::f32::consts::PI * 0.02f32 * 0.01f32,
        timer: StillnessTimer::new(100),
        bias: 0.0f32,
    };
    for _ in 0..500 {
        assert_eq!(correct(&mut corrector, 1.0f32), 1.0f32);
        assert_eq!(corrector.bias, 0.0f32);
    }
    for _ in 0..10000 {
        correct(&mut corrector, 1.0f32);
    }
    assert!(fabsf(corrector.bias - 1.0f32) < 0.01f32);
}

#[test]
fn rate_above_threshold_never_changes_the_bias() {
    let mut corrector = Corrector {
        coefficient: 2.0f32 * core::f32::consts::PI * 0.02f32 * 0.01f32,
        timer: StillnessTimer::new(100),
        bias: 0.0f32,
    };
    for _ in 0..600 {
        correct(&mut corrector, 0.0f32);
    }
    assert_eq!(corrector.timer.timer(), 500);
    for _ in 0..1000 {
        assert_eq!(correct(&mut corrector, 50.0f32), 50.0f32);
        assert_eq!(corrector.bias, 0.0f32);
        assert_eq!(corrector.timer.timer(), 0);
    }
}

#[test]
fn motion_is_any_axis_beyond_three_degrees_per_second() {
    assert_eq!(STILLNESS_THRESHOLD_BITS, 3.0f32.to_bits());
    let values = [
        0.0f32, -0.0f32, 1.0e-40f32, 2.9999998f32, 3.0f32, 3.0000002f32, -3.0f32, -3.0000002f32, 50.0f32,
        f32::INFINITY, f32::NEG_INFINITY, f32::NAN,
    ];
    for x in values {
        for y in values {
            for z in [0.0f32, -4.0f32] {
                let expected = fabsf(x) > 3.0f32 || fabsf(y) > 3.0f32 || fabsf(z) > 3.0f32;
                assert_eq!(is_moving(x.to_bits(), y.to_bits(), z.to_bits()), expected);
            }
        }
    }
}
