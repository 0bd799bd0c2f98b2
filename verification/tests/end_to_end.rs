use fusion_ahrs::{
    inverse_sqrt_seed, seed_in_range, AhrsFlags, Axis, FusionConvention, GainSource, RampAction, Reading,
};
use libm::{asinf, fabsf, sqrtf};

type Vector = [f32; 3];
type Quaternion = [f32; 4];

struct Filter {
    convention: FusionConvention,
    gain: f32,
    range: f32,
    acc_rejection: f32,
    ramped_gain: f32,
    ramped_gain_step: f32,
    quaternion: Quaternion,
    flags: AhrsFlags,
}

fn inverse_sqrt(x: f32) -> f32 {
    let bits = x.to_bits() as i32;
    assert!(seed_in_range(bits));
    let guess = f32::from_bits(inverse_sqrt_seed(bits) as u32);
    guess * (1.69000231f32 - 0.714158168f32 * x * guess * guess)
}

fn cross(a: Vector, b: Vector) -> Vector {
    [a[1] * b[2] - a[2] * b[1], a[2] * b[0] - a[0] * b[2], a[0] * b[1] - a[1] * b[0]]
}

fn dot(a: Vector, b: Vector) -> f32 {
    a[0] * b[0] + a[1] * b[1] + a[2] * b[2]
}

fn multiply(a: Quaternion, b: Quaternion) -> Quaternion {
    [
        a[0] * b[0] - a[1] * b[1] - a[2] * b[2] - a[3] * b[3],
        a[0] * b[1] + a[1] * b[0] + a[2] * b[3] - a[3] * b[2],
        a[0] * b[2] - a[1] * b[3] + a[2] * b[0] + a[3] * b[1],
        a[0] * b[3] + a[1] * b[2] - a[2] * b[1] + a[3] * b[0],
    ]
}

fn to_body(q: Quaternion, axis: Axis) -> Vector {
    let conjugate = [q[0], -q[1], -q[2], -q[3]];
    let v = [0.0f32, f32::from(axis.x), f32::from(axis.y), f32::from(axis.z)];
    let turned = multiply(multiply(conjugate, v), q);
    [turned[1], turned[2], turned[3]]
}

fn norm(q: Quaternion) -> f32 {
    sqrtf(q[0] * q[0] + q[1] * q[1] + q[2] * q[2] + q[3] * q[3])
}

fn filter(convention: FusionConvention, gain: f32, range: f32, acc_rejection: f32, period: i32) -> Filter {
    Filter {
        convention,
        gain,
        range,
        acc_rejection,
        ramped_gain: 10.0f32,
        ramped_gain_step: (10.0f32 - gain) / 3.0f32,
        quaternion: [1.0f32, 0.0f32, 0.0f32, 0.0f32],
        flags: AhrsFlags::new(period),
    }
}

fn update(f: &mut Filter, gyroscope: Vector, accelerometer: Vector, delta_time: f32) {
    let saturated = fusion_ahrs::gyroscope_saturated(
        f.range.to_bits(),
        gyroscope[0].to_bits(),
        gyroscope[1].to_bits(),
        gyroscope[2].to_bits(),
    );
    match f.flags.start_sample(saturated) {
        RampAction::Restart => f.ramped_gain = 10.0f32,
        RampAction::Advance => f.ramped_gain -= f.ramped_gain_step * delta_time,
        RampAction::Hold => {}
    }
    let half_gravity = to_body(f.quaternion, f.convention.up()).map(|c| 0.5f32 * c);
    let mut half_feedback = [0.0f32; 3];
    let mut reading = Reading::Absent;
    if accelerometer != [0.0f32; 3] {
        let scale = inverse_sqrt(dot(accelerometer, accelerometer));
        let sensor = accelerometer.map(|c| c * scale);
        half_feedback = cross(sensor, half_gravity);
        let sine = 2.0f32 * sqrtf(dot(half_feedback, half_feedback));
        let mut angle = asinf(if sine > 1.0f32 { 1.0f32 } else { sine }).to_degrees();
        if dot(sensor, half_gravity) < 0.0f32 {
            angle = 180.0f32 - angle;
        }
        reading = fusion_ahrs::judge(angle.to_bits(), f.acc_rejection.to_bits());
    }
    let settled = fusion_ahrs::gain_settled(f.ramped_gain.to_bits(), f.gain.to_bits());
    let plan = f.flags.finish_sample(settled, reading, Reading::Absent);
    let gain = match plan.gain {
        GainSource::Ramped => f.ramped_gain,
        GainSource::Steady => f.gain,
    };
    if !plan.use_accelerometer {
        half_feedback = [0.0f32; 3];
    }
    let mut rate = [0.0f32; 4];
    for i in 0..3 {
        rate[i + 1] = (0.5f32 * gyroscope[i].to_radians() + gain * half_feedback[i]) * delta_time;
    }
    let step = multiply(f.quaternion, rate);
    let mut next = f.quaternion;
    for i in 0..4 {
        next[i] += step[i];
    }
    let scale = inverse_sqrt(next[0] * next[0] + next[1] * next[1] + next[2] * next[2] + next[3] * next[3]);
    f.quaternion = next.map(|c| c * scale);
}

#[test]
fn level_body_at_rest_stays_at_identity() {
    let mut f = filter(FusionConvention::NWU, 0.5f32, 2000.0f32, 10.0f32, 5 * 100);
    for _ in 0..100 {
        update(&mut f, [0.0f32, 0.0f32, 0.0f32], [0.0f32, 0.0f32, 1.0f32], 0.01f32);
        assert!(!f.flags.accelerometer_ignored());
        assert_eq!(f.flags.accelerometer.trigger, 0);
    }
    assert!(fabsf(f.quaternion[0] - 1.0f32) < 0.002f32);
    assert!(fabsf(f.quaternion[1]) < 0.001f32);
    assert!(fabsf(f.quaternion[2]) < 0.001f32);
    assert!(fabsf(f.quaternion[3]) < 0.001f32);
    assert!(f.flags.initialising());
}

#[test]
fn initialisation_ends_after_the_ramp() {
    let mut f = filter(FusionConvention::NWU, 0.5f32, 2000.0f32, 10.0f32, 500);
    let mut last_gain = f.ramped_gain;
    let mut samples = 0;
    while f.flags.initialising() {
        update(&mut f, [0.0f32, 0.0f32, 0.0f32], [0.0f32, 0.0f32, 1.0f32], 0.01f32);
        assert!(f.ramped_gain <= last_gain);
        last_gain = f.ramped_gain;
        samples += 1;
        assert!(samples < 400);
    }
    assert!(samples >= 299);
    assert!(f.ramped_gain <= f.gain);
}

#[test]
fn tilted_estimate_is_pulled_back_to_gravity() {
    let mut f = filter(FusionConvention::NWU, 0.5f32, 2000.0f32, 90.0f32, 500);
    f.quaternion = [0.9961947f32, 0.0871557f32, 0.0f32, 0.0f32];
    for _ in 0..1000 {
        update(&mut f, [0.0f32, 0.0f32, 0.0f32], [0.0f32, 0.0f32, 1.0f32], 0.01f32);
        assert!(!f.flags.accelerometer_ignored());
        assert!(fabsf(norm(f.quaternion) - 1.0f32) < 0.001f32);
    }
    assert!(fabsf(f.quaternion[1]) < 0.005f32);
    assert!(fabsf(f.quaternion[2]) < 0.005f32);
}

#[test]
fn unit_norm_holds_under_rotation() {
    let mut f = filter(FusionConvention::NED, 0.5f32, 2000.0f32, 10.0f32, 500);
    for i in 0..2000 {
        let rate = [90.0f32, -45.0f32, if i % 2 == 0 { 30.0f32 } else { -10.0f32 }];
        update(&mut f, rate, [0.1f32, 0.2f32, -1.0f32], 0.01f32);
        assert!(fabsf(norm(f.quaternion) - 1.0f32) < 0.001f32);
    }
}

#[test]
fn gyroscope_alone_at_rest_keeps_the_orientation() {
    let mut f = filter(FusionConvention::ENU, 0.5f32, 2000.0f32, 10.0f32, 500);
    for _ in 0..500 {
        update(&mut f, [0.0f32, 0.0f32, 0.0f32], [0.0f32, 0.0f32, 0.0f32], 0.01f32);
        assert!(fabsf(f.quaternion[0] - 1.0f32) < 0.001f32);
        assert_eq!(f.quaternion[1], 0.0f32);
        assert_eq!(f.quaternion[2], 0.0f32);
        assert_eq!(f.quaternion[3], 0.0f32);
        assert!(f.flags.accelerometer_ignored());
    }
}

#[test]
fn saturated_sample_sets_recovery_for_that_sample_only() {
    let mut f = filter(FusionConvention::NWU, 0.5f32, 500.0f32, 10.0f32, 500);
    update(&mut f, [600.0f32, 0.0f32, 0.0f32], [0.0f32, 0.0f32, 1.0f32], 0.01f32);
    assert!(f.flags.angular_rate_recovery());
    update(&mut f, [0.0f32, 0.0f32, 0.0f32], [0.0f32, 0.0f32, 1.0f32], 0.01f32);
    assert!(!f.flags.angular_rate_recovery());
}

#[test]
fn persistent_disagreement_ends_in_forced_recovery() {
    let mut f = filter(FusionConvention::NWU, 0.5f32, 0.0f32, 10.0f32, 20);
    let mut ignored = 0;
    let mut accepted = false;
    for _ in 0..30 {
        update(&mut f, [0.0f32, 0.0f32, 0.0f32], [0.0f32, 1.0f32, 0.0f32], 0.0f32);
        assert!(0 <= f.flags.accelerometer.trigger && f.flags.accelerometer.trigger <= 20);
        if f.flags.accelerometer_ignored() {
            assert!(!accepted);
            ignored += 1;
        } else {
            accepted = true;
        }
    }
    assert_eq!(ignored, 20);
    assert!(accepted);
}
