use dictation_indicator::event::{DictationIndicatorEvent, HudTuning};
use dictation_indicator::jobs::front_processing;
use dictation_indicator::phase::{JobPhase, Phase};
use dictation_indicator::renderer::{LevelRequest, MetalRenderer, CAPSULE_WIDTH};
use dictation_indicator::scalar::{ONE, ZERO};
use dictation_indicator::spring::Spring;
use dictation_indicator::time::Instant;
use std::collections::BTreeMap;

use DictationIndicatorEvent::{
    Cancelled, Configure, Discarded, EditingStarted, Failed, JobCancelled, JobCompleted, JobFailed,
    Meter, Processing, PromotedToVoiceAction, Reset, Started, Submitted, Transcribing,
};

fn at(millis: u128) -> Instant {
    Instant { nanos: millis * 1_000_000 }
}

fn after(events: &[DictationIndicatorEvent]) -> MetalRenderer {
    let mut renderer = MetalRenderer::new(at(0));
    for (i, event) in events.iter().enumerate() {
        renderer.handle(*event, at(10 * (i as u128 + 1)));
    }
    renderer
}

#[test]
fn a_new_display_is_hidden() {
    let renderer = MetalRenderer::new(at(7));
    assert_eq!(renderer.phase, Phase::Hidden);
    assert!(renderer.exiting);
    assert!(renderer.jobs.is_empty());
    assert_eq!(renderer.springs.width, Spring::new(CAPSULE_WIDTH));
    assert_eq!(renderer.tuning, HudTuning::default());
    assert_eq!(renderer.phase_started, at(7));
}

#[test]
fn starts_record() {
    let renderer = after(&[Started]);
    assert_eq!(renderer.phase, Phase::Recording);
    assert!(renderer.capturing && !renderer.editing && !renderer.exiting);
    let renderer = after(&[EditingStarted]);
    assert!(renderer.capturing && renderer.editing);
    let renderer = after(&[Started, PromotedToVoiceAction]);
    assert!(renderer.editing);
    assert_eq!(renderer.phase_started, at(10));
}

#[test]
fn a_start_forgets_the_past() {
    let fresh = {
        let mut renderer = MetalRenderer::new(at(0));
        renderer.handle(Started, at(50));
        renderer
    };
    let mut used = after(&[EditingStarted, Cancelled, Started, Failed]);
    used.springs.opacity = Spring { value: ONE, velocity: ONE };
    used.handle(Started, at(50));
    assert_eq!(used.springs, fresh.springs);
    assert_eq!(used.phase, fresh.phase);
    assert_eq!(used.phase_started, fresh.phase_started);
    assert_eq!(used.editing, fresh.editing);
    assert_eq!(used.target_peak, fresh.target_peak);
}

#[test]
fn jobs_move_through_the_pipeline() {
    let mut renderer = after(&[Started, Submitted { job_id: 3 }]);
    assert_eq!(renderer.phase, Phase::Transcribing);
    assert_eq!(renderer.jobs.get(&3), Some(&JobPhase::Queued));
    renderer.handle(Transcribing { job_id: 3 }, at(30));
    assert_eq!(renderer.jobs.get(&3), Some(&JobPhase::Transcribing));
    renderer.handle(Processing { job_id: 3 }, at(40));
    assert_eq!(renderer.jobs.get(&3), Some(&JobPhase::Processing));
    assert_eq!(renderer.phase_started, at(40));
    renderer.handle(JobCompleted { job_id: 3 }, at(50));
    assert!(renderer.jobs.is_empty());
    assert!(renderer.completion_pending);
    assert_eq!(renderer.phase, Phase::Transcribing);
    assert_eq!(renderer.phase_started, at(50));
}

#[test]
fn only_the_last_job_ends_the_display() {
    let jobs = [Submitted { job_id: 1 }, Submitted { job_id: 2 }];
    let mut renderer = after(&jobs);
    renderer.handle(JobFailed { job_id: 1 }, at(30));
    assert_eq!(renderer.phase, Phase::Transcribing);
    assert!(!renderer.completion_pending);
    renderer.handle(JobFailed { job_id: 2 }, at(40));
    assert_eq!(renderer.phase, Phase::Failed);
    let mut renderer = after(&jobs);
    renderer.handle(JobCompleted { job_id: 2 }, at(30));
    renderer.handle(JobCancelled { job_id: 1 }, at(40));
    assert_eq!(renderer.phase, Phase::Cancelled);
}

#[test]
fn jobs_leave_one_another_alone() {
    let mut renderer = after(&[Submitted { job_id: 1 }, Submitted { job_id: 2 }]);
    renderer.handle(Processing { job_id: 2 }, at(30));
    assert_eq!(renderer.jobs.get(&1), Some(&JobPhase::Queued));
    renderer.handle(JobCompleted { job_id: 1 }, at(40));
    assert_eq!(renderer.jobs.get(&2), Some(&JobPhase::Processing));
}

#[test]
fn work_outlasts_the_end_of_a_job() {
    let ends = [
        JobCompleted { job_id: 1 },
        JobCancelled { job_id: 1 },
        JobFailed { job_id: 1 },
    ];
    for event in ends {
        let mut renderer = after(&[Submitted { job_id: 1 }, Submitted { job_id: 2 }]);
        renderer.set_levels(ONE, ONE);
        renderer.handle(event, at(30));
        assert_eq!(renderer.phase, Phase::Transcribing);
        assert_eq!(renderer.phase_started, at(30));
        assert!(!renderer.completion_pending);
        assert_eq!((renderer.target_average, renderer.target_peak), (ZERO, ZERO));

        let mut renderer = after(&[Submitted { job_id: 1 }, Started]);
        renderer.set_levels(ONE, ONE);
        renderer.handle(event, at(30));
        assert_eq!(renderer.phase, Phase::Recording);
        assert_eq!(renderer.phase_started, at(20));
        assert_eq!((renderer.target_average, renderer.target_peak), (ONE, ONE));
        assert!(renderer.jobs.is_empty());
    }
}

#[test]
fn unknown_jobs_are_ignored() {
    for event in [
        Transcribing { job_id: 9 },
        Processing { job_id: 9 },
        JobCompleted { job_id: 9 },
        JobCancelled { job_id: 9 },
        JobFailed { job_id: 9 },
    ] {
        let mut renderer = after(&[Started, Submitted { job_id: 1 }]);
        renderer.handle(event, at(90));
        assert_eq!(renderer.phase, Phase::Transcribing);
        assert_eq!(renderer.phase_started, at(20));
        assert_eq!(renderer.jobs.len(), 1);
        assert_eq!(renderer.jobs.get(&1), Some(&JobPhase::Queued));
    }
}

#[test]
fn a_recording_outlasts_the_jobs_before_it() {
    let mut renderer = after(&[Submitted { job_id: 1 }, Started]);
    renderer.handle(Processing { job_id: 1 }, at(30));
    assert_eq!(renderer.phase, Phase::Recording);
    assert_eq!(renderer.phase_started, at(20));
    renderer.handle(JobCompleted { job_id: 1 }, at(40));
    assert_eq!(renderer.phase, Phase::Recording);
    assert!(!renderer.completion_pending);
    assert!(renderer.jobs.is_empty());
}

#[test]
fn a_start_drops_a_pending_completion() {
    let renderer = after(&[Submitted { job_id: 1 }, JobCompleted { job_id: 1 }, Started]);
    assert!(!renderer.completion_pending);
    assert_eq!(renderer.phase, Phase::Recording);
}

#[test]
fn recordings_end_in_their_phase() {
    for (event, phase, started) in [
        (Discarded, Phase::Hidden, at(10)),
        (Cancelled, Phase::Cancelled, at(20)),
        (Failed, Phase::Failed, at(20)),
    ] {
        let renderer = after(&[Started, event]);
        assert_eq!(renderer.phase, phase);
        assert_eq!(renderer.phase_started, started);
        assert!(!renderer.capturing);
        let renderer = after(&[Submitted { job_id: 4 }, Started, event]);
        assert_eq!(renderer.phase, Phase::Transcribing);
        assert_eq!(renderer.jobs.len(), 1);
    }
}

#[test]
fn a_reset_hides_everything() {
    let renderer = after(&[Submitted { job_id: 1 }, EditingStarted, Reset]);
    assert_eq!(renderer.phase, Phase::Hidden);
    assert!(renderer.jobs.is_empty());
    assert!(!renderer.capturing && !renderer.editing && !renderer.completion_pending);
}

#[test]
fn the_end_of_a_recording_freezes_the_levels() {
    let mut renderer = after(&[Started]);
    let moving = Spring { value: 0.3_f32.to_bits(), velocity: 2.0_f32.to_bits() };
    renderer.springs.average = moving;
    renderer.springs.peak = moving;
    renderer.springs.width = moving;
    renderer.springs.opacity = moving;
    renderer.handle(Cancelled, at(20));
    assert_eq!(renderer.target_average, moving.value);
    assert_eq!(renderer.target_peak, moving.value);
    assert_eq!(renderer.springs.average, Spring::new(moving.value));
    assert_eq!(renderer.springs.width, Spring::new(moving.value));
    assert_eq!(renderer.springs.opacity, moving);
}

#[test]
fn levels_are_amplified_and_clamped() {
    let mut renderer = after(&[Started]);
    let average = 0.05_f32;
    let peak = 0.5_f32;
    let request = renderer.handle(
        Meter { average: average.to_bits(), peak: peak.to_bits() },
        at(20),
    );
    let Some(LevelRequest { average: a, average_gain, peak: p, peak_gain }) = request else {
        panic!("expected levels");
    };
    assert_eq!(renderer.target_average, ZERO);
    let product = |x: u32, y: u32| (f32::from_bits(x) * f32::from_bits(y)).to_bits();
    renderer.set_levels(product(a, average_gain), product(p, peak_gain));
    assert_eq!(f32::from_bits(renderer.target_average), (average * 9.0).clamp(0.0, 1.0));
    assert_eq!(f32::from_bits(renderer.target_peak), (peak * 3.0).clamp(0.0, 1.0));
    assert_eq!(renderer.handle(Started, at(30)), None);
}

#[test]
fn the_look_is_configured() {
    let mut tuning = HudTuning::default();
    tuning.glow = 0.1_f32.to_bits();
    let renderer = after(&[Started, Configure(tuning)]);
    assert_eq!(renderer.tuning, tuning);
    assert_eq!(renderer.phase, Phase::Recording);
}

#[test]
fn the_first_job_decides_about_processing() {
    let mut jobs = BTreeMap::new();
    assert!(!front_processing(&jobs));
    jobs.insert(8, JobPhase::Processing);
    assert!(front_processing(&jobs));
    jobs.insert(3, JobPhase::Transcribing);
    assert!(!front_processing(&jobs));
    jobs.insert(3, JobPhase::Processing);
    jobs.insert(8, JobPhase::Queued);
    assert!(front_processing(&jobs));
}
