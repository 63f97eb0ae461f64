use dictation_indicator::frame::{PROCESSING_MORPH_MILLIS, RECORDING_FLASH_HALF_LIFE_MILLIS};
use dictation_indicator::phase::{recording_flash_for, Phase};
use dictation_indicator::renderer::{CAPSULE_HEIGHT, CAPSULE_WIDTH, HIDDEN_SCALE, HIDDEN_SOFTNESS};
use dictation_indicator::scalar::{Scalar, ONE, ZERO};
use dictation_indicator::spring::{
    Spring, ENTRANCE_ANGULAR_FREQUENCY, EXIT_ANGULAR_FREQUENCY, GEOMETRY_ANGULAR_FREQUENCY,
};
use dictation_indicator::time::Duration;

fn number(bits: Scalar) -> f32 {
    f32::from_bits(bits)
}

// The springs and the flash are floating point, which the application works out. The two
// functions below repeat its formulas, so that what is tested here is how the frequencies,
// sizes and spans of the library behave under them, and not the application itself.

/// Moves a critically damped spring.
fn step_critical(spring: &mut Spring, target: Scalar, dt: f32, angular_frequency: Scalar) {
    let frequency = number(angular_frequency);
    let displacement = number(spring.value) - number(target);
    let coefficient = number(spring.velocity) + frequency * displacement;
    let decay = (-frequency * dt).exp();
    let velocity = (number(spring.velocity) - frequency * coefficient * dt) * decay;
    spring.value = (number(target) + (displacement + coefficient * dt) * decay).to_bits();
    spring.velocity = velocity.to_bits();
}

/// The brightness of a recording flash.
fn flash_brightness(elapsed: Duration) -> f32 {
    let half_life = Duration::from_millis(RECORDING_FLASH_HALF_LIFE_MILLIS);
    2.0_f32.powf(-((elapsed.nanos as f32) / (half_life.nanos as f32)))
}

fn flash(phase: Phase, editing: bool, elapsed: Duration) -> f32 {
    recording_flash_for(phase, editing, elapsed).map_or(0.0, flash_brightness)
}

#[test]
fn entrance_reaches_recording_state_in_about_250ms_without_overshoot() {
    let simulate = |frame_rate: usize| {
        let mut opacity = Spring::new(ZERO);
        let mut scale = Spring::new(HIDDEN_SCALE);
        let mut softness = Spring::new(HIDDEN_SOFTNESS);
        for _ in 0..frame_rate / 4 {
            let dt = 1.0 / frame_rate as f32;
            step_critical(&mut opacity, ONE, dt, ENTRANCE_ANGULAR_FREQUENCY);
            step_critical(&mut scale, ONE, dt, ENTRANCE_ANGULAR_FREQUENCY);
            step_critical(&mut softness, ZERO, dt, ENTRANCE_ANGULAR_FREQUENCY);
            assert!((0.0..=1.0).contains(&number(opacity.value)));
            assert!((number(HIDDEN_SCALE)..=1.0).contains(&number(scale.value)));
            assert!((0.0..=number(HIDDEN_SOFTNESS)).contains(&number(softness.value)));
        }
        (number(opacity.value), number(scale.value), number(softness.value))
    };

    let at_60_hz = simulate(60);
    let at_120_hz = simulate(120);
    assert!((at_60_hz.0 - at_120_hz.0).abs() < 0.000_01);
    assert!((at_60_hz.1 - at_120_hz.1).abs() < 0.000_01);
    assert!((at_60_hz.2 - at_120_hz.2).abs() < 0.000_01);
    assert!(at_60_hz.0 >= 0.98);
    assert!(at_60_hz.1 >= 0.996);
    assert!(at_60_hz.2 <= 0.08);
}

#[test]
fn lifecycle_exit_is_monotonic_and_visually_gone_in_about_250ms() {
    let mut opacity = Spring::new(ONE);
    let mut scale = Spring::new(ONE);
    let mut softness = Spring::new(ZERO);
    let mut previous = (number(opacity.value), number(scale.value), number(softness.value));

    for _ in 0..15 {
        step_critical(&mut opacity, ZERO, 1.0 / 60.0, EXIT_ANGULAR_FREQUENCY);
        step_critical(&mut scale, HIDDEN_SCALE, 1.0 / 60.0, EXIT_ANGULAR_FREQUENCY);
        step_critical(&mut softness, HIDDEN_SOFTNESS, 1.0 / 60.0, EXIT_ANGULAR_FREQUENCY);
        assert!((0.0..=previous.0).contains(&number(opacity.value)));
        assert!((number(HIDDEN_SCALE)..=previous.1).contains(&number(scale.value)));
        assert!((previous.2..=number(HIDDEN_SOFTNESS)).contains(&number(softness.value)));
        previous = (number(opacity.value), number(scale.value), number(softness.value));
    }

    assert!(number(opacity.value) < 0.02);
    assert!((number(scale.value) - number(HIDDEN_SCALE)).abs() < 0.004);
    assert!((number(softness.value) - number(HIDDEN_SOFTNESS)).abs() < 0.08);
}

#[test]
fn recording_flash_starts_bright_and_settles_without_a_second_pulse() {
    let samples = [0, 70, 280, 560, 1_120]
        .map(|millis| flash(Phase::Recording, false, Duration::from_millis(millis)));

    assert_eq!(samples[0], 1.0);
    assert!(samples.windows(2).all(|pair| pair[0] > pair[1]));
    assert!((samples[2] - 0.5).abs() < 0.000_1);
    assert!((samples[3] - 0.25).abs() < 0.000_1);
    assert!(samples[4] < 0.07);
}

#[test]
fn voice_action_starts_green_without_the_dictation_flash() {
    assert_eq!(flash(Phase::Recording, true, Duration::from_millis(0)), 0.0);
    assert_eq!(flash(Phase::Recording, false, Duration::from_millis(0)), 1.0);
}

#[test]
fn processing_morph_duration_matches_geometry_spring() {
    let mut width = Spring::new(CAPSULE_WIDTH);
    for _ in 0..15 {
        step_critical(&mut width, CAPSULE_HEIGHT, 1.0 / 60.0, GEOMETRY_ANGULAR_FREQUENCY);
    }
    assert!(number(width.value) < number(CAPSULE_HEIGHT) + 0.7);
    assert_eq!(
        Duration::from_millis(PROCESSING_MORPH_MILLIS),
        Duration::from_millis(250)
    );
}

#[test]
fn processing_morph_only_contracts_the_capsule() {
    let mut width = Spring::new(CAPSULE_WIDTH);
    let mut height = Spring::new(CAPSULE_HEIGHT);
    let mut previous_width = number(width.value);

    for _ in 0..15 {
        step_critical(&mut width, CAPSULE_HEIGHT, 1.0 / 60.0, GEOMETRY_ANGULAR_FREQUENCY);
        step_critical(&mut height, CAPSULE_HEIGHT, 1.0 / 60.0, GEOMETRY_ANGULAR_FREQUENCY);
        assert!((number(CAPSULE_HEIGHT)..=previous_width).contains(&number(width.value)));
        assert_eq!(number(height.value), number(CAPSULE_HEIGHT));
        previous_width = number(width.value);
    }

    assert!(number(width.value) < number(CAPSULE_HEIGHT) + 0.7);
}

#[test]
fn springs_rest_halt_and_settle() {
    let mut spring = Spring::new(ONE);
    spring.velocity = 3.0_f32.to_bits();
    let epsilon = 0.002_f32.to_bits();
    assert!(!spring.is_settled(ZERO, epsilon, epsilon));
    spring.halt();
    assert_eq!(spring, Spring { value: ONE, velocity: ZERO });
    assert!(spring.is_settled((-0.002_f32).to_bits(), epsilon, epsilon));
    assert!(!spring.is_settled(0.0021_f32.to_bits(), epsilon, epsilon));
    assert!(!spring.is_settled(f32::NAN.to_bits(), epsilon, epsilon));
    spring.velocity = (-0.001_f32).to_bits();
    assert!(spring.is_settled(ZERO, epsilon, epsilon));
    spring.reset(CAPSULE_WIDTH);
    assert_eq!(spring, Spring { value: 56.0_f32.to_bits(), velocity: 0 });
}
