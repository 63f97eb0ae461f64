use dictation_indicator::event::HudTuning;
use dictation_indicator::frame::{
    APPEARANCE_EPSILON, APPEARANCE_VELOCITY_EPSILON, PEAK_DECAY, PEAK_DECAY_RATE, SCALE_EPSILON,
    SMALLEST_SCALE, SOFTNESS_EPSILON, SOFTNESS_VELOCITY_EPSILON, WINDOW_HEIGHT, WINDOW_WIDTH,
};
use dictation_indicator::renderer::{
    AVERAGE_GAIN, CAPSULE_HEIGHT, CAPSULE_WIDTH, HIDDEN_SCALE, HIDDEN_SOFTNESS, INITIAL_SCALE,
    PEAK_GAIN,
};
use dictation_indicator::scalar::{
    absolute, at_most, clamp, coordinate_absolute, coordinate_at_most, coordinate_less, less, nan,
    raise, ONE, ZERO,
};
use dictation_indicator::screen::{
    CAPSULE_MARGIN_POINTS, PLACE_TOLERANCE, TOP_OFFSET_POINTS, WINDOW_WIDTH_POINTS,
};
use dictation_indicator::spring::{
    AVERAGE_ANGULAR_FREQUENCY, ENTRANCE_ANGULAR_FREQUENCY, EXIT_ANGULAR_FREQUENCY,
    GEOMETRY_ANGULAR_FREQUENCY, PEAK_ANGULAR_FREQUENCY,
};
use dictation_indicator::time::{Duration, Instant};

const NUMBERS: [f32; 15] = [
    f32::NEG_INFINITY,
    -2.5,
    -1.0,
    -1.0e-40,
    -0.0,
    0.0,
    1.0e-40,
    0.01,
    0.5,
    0.999_999_94,
    1.0,
    1.5,
    4.0,
    f32::INFINITY,
    f32::NAN,
];

#[test]
fn scalars_compare_as_numbers() {
    for x in NUMBERS {
        assert_eq!(nan(x.to_bits()), x.is_nan());
        assert_eq!(absolute(x.to_bits()), x.abs().to_bits());
        for y in NUMBERS {
            assert_eq!(less(x.to_bits(), y.to_bits()), x < y);
            assert_eq!(at_most(x.to_bits(), y.to_bits()), x <= y);
        }
    }
    assert!(nan((-f32::NAN).to_bits()));
}

#[test]
fn scalars_clamp_as_numbers() {
    for x in NUMBERS {
        assert_eq!(clamp(x.to_bits(), ZERO, ONE), x.clamp(0.0, 1.0).to_bits());
        assert_eq!(
            clamp(x.to_bits(), ZERO, HIDDEN_SOFTNESS),
            x.clamp(0.0, 4.0).to_bits()
        );
        assert_eq!(raise(x.to_bits(), SMALLEST_SCALE), x.max(0.01).to_bits());
    }
}

#[test]
fn coordinates_compare_as_numbers() {
    for x in NUMBERS.map(f64::from) {
        assert_eq!(coordinate_absolute(x.to_bits()), x.abs().to_bits());
        for y in NUMBERS.map(f64::from) {
            assert_eq!(coordinate_less(x.to_bits(), y.to_bits()), x < y);
            assert_eq!(coordinate_at_most(x.to_bits(), y.to_bits()), x <= y);
        }
    }
}

#[test]
fn constants_stand_for_their_numbers() {
    let constants = [
        (ZERO, 0.0),
        (ONE, 1.0),
        (CAPSULE_WIDTH, 56.0),
        (CAPSULE_HEIGHT, 16.0),
        (HIDDEN_SCALE, 0.82),
        (HIDDEN_SOFTNESS, 4.0),
        (INITIAL_SCALE, 2.0),
        (AVERAGE_GAIN, 9.0),
        (PEAK_GAIN, 3.0),
        (PEAK_DECAY, 0.91),
        (PEAK_DECAY_RATE, 60.0),
        (WINDOW_WIDTH, 112.0),
        (WINDOW_HEIGHT, 64.0),
        (SMALLEST_SCALE, 0.01),
        (SCALE_EPSILON, f32::EPSILON),
        (APPEARANCE_EPSILON, 0.002),
        (APPEARANCE_VELOCITY_EPSILON, 0.002_f32 * 24.0),
        (SOFTNESS_EPSILON, 0.02),
        (SOFTNESS_VELOCITY_EPSILON, 0.02_f32 * 24.0),
        (ENTRANCE_ANGULAR_FREQUENCY, 24.0),
        (EXIT_ANGULAR_FREQUENCY, 24.0),
        (GEOMETRY_ANGULAR_FREQUENCY, 24.0),
        (AVERAGE_ANGULAR_FREQUENCY, 22.0),
        (PEAK_ANGULAR_FREQUENCY, 26.0),
    ];
    for (bits, value) in constants {
        assert_eq!(bits, f32::to_bits(value));
    }
    assert_eq!(PLACE_TOLERANCE, f64::to_bits(0.5));
    assert_eq!(WINDOW_WIDTH_POINTS, f64::to_bits(112.0));
    assert_eq!(CAPSULE_MARGIN_POINTS, f64::to_bits((64.0 - 16.0) / 2.0));
    assert_eq!(TOP_OFFSET_POINTS, f64::to_bits(12.0));
}

#[test]
fn standard_look() {
    let tuning = HudTuning::default();
    let values = [
        tuning.style,
        tuning.line_count,
        tuning.curvature,
        tuning.speed,
        tuning.sharpness,
        tuning.glow,
        tuning.depth,
        tuning.light_angle,
        tuning.outline,
    ]
    .map(f32::from_bits);
    assert_eq!(values, [1.0, 2.0, 0.47, 17.08, 0.29, 0.77, 0.65, 0.35, 1.0]);
}

#[test]
fn instants_measure_and_advance() {
    let start = Instant { nanos: 5 };
    let later = start.advance(Duration::from_millis(3));
    assert_eq!(later, Instant { nanos: 3_000_005 });
    assert_eq!(later.duration_since(start), Duration::from_millis(3));
    assert_eq!(start.duration_since(later), Duration { nanos: 0 });
    assert_eq!(
        Duration::from_millis(u64::MAX).nanos,
        u128::from(u64::MAX) * 1_000_000
    );
}
