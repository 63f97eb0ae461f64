use dictation_indicator::event::DictationIndicatorEvent;
use dictation_indicator::meter::{meter, peak_of};

fn bits(samples: &[f32]) -> Vec<u32> {
    samples.iter().map(|sample| sample.to_bits()).collect()
}

// The average is floating point, which the application works out. This repeats its formula;
// what is tested here is that the library passes the average on and finds the peak.
fn root_mean_square(samples: &[f32]) -> f32 {
    let sum: f32 = samples.iter().map(|sample| sample * sample).sum();
    (sum / samples.len() as f32).sqrt()
}

#[test]
fn meter_reports_rms_and_peak() {
    let samples = [-0.5, 0.5];
    let event = meter(&bits(&samples), root_mean_square(&samples).to_bits());
    let Some(DictationIndicatorEvent::Meter { average, peak }) = event else {
        panic!("expected meter event");
    };
    assert!((f32::from_bits(average) - 0.5).abs() < f32::EPSILON);
    assert!((f32::from_bits(peak) - 0.5).abs() < f32::EPSILON);
}

#[test]
fn no_samples_report_nothing() {
    assert_eq!(meter(&[], 0), None);
}

#[test]
fn peak_is_the_largest_magnitude() {
    let cases: [&[f32]; 6] = [
        &[0.1, -0.9, 0.3],
        &[f32::NAN, 0.2, -f32::NAN],
        &[f32::NAN],
        &[-0.0, 0.0],
        &[f32::NEG_INFINITY, 1.0],
        &[1.0e-40, -3.0e-41],
    ];
    for samples in cases {
        let mut peak = 0.0_f32;
        for sample in samples {
            peak = peak.max(sample.abs());
        }
        assert_eq!(peak_of(&bits(samples)), peak.to_bits());
    }
}
