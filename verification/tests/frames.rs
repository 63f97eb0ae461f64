use dictation_indicator::event::DictationIndicatorEvent;
use dictation_indicator::frame::{
    ExitDistances, FrameValues, Gap, PeakDecay, Progress, Surface, Uniforms,
};
use dictation_indicator::phase::Phase;
use dictation_indicator::renderer::{
    MetalRenderer, CAPSULE_HEIGHT, CAPSULE_WIDTH, HIDDEN_SCALE, HIDDEN_SOFTNESS,
};
use dictation_indicator::scalar::{ONE, ZERO};
use dictation_indicator::shared::SharedRenderer;
use dictation_indicator::spring::{Spring, SpringSteps, Springs};
use dictation_indicator::time::{Duration, Instant};

use DictationIndicatorEvent::{
    Cancelled, EditingStarted, Failed, JobCompleted, Processing, Reset, Started, Submitted,
};

fn at(millis: u128) -> Instant {
    Instant { nanos: millis * 1_000_000 }
}

fn reached(steps: &SpringSteps) -> Springs {
    Springs {
        average: Spring::new(steps.average.target),
        peak: Spring::new(steps.peak.target),
        width: Spring::new(steps.width.target),
        height: Spring::new(steps.height.target),
        opacity: Spring::new(steps.opacity.target),
        visual_scale: Spring::new(steps.visual_scale.target),
        softness: Spring::new(steps.softness.target),
        processing: Spring::new(steps.processing.target),
        post_processing: Spring::new(steps.post_processing.target),
    }
}

fn values() -> FrameValues {
    FrameValues {
        pixel_width: 224.0_f32.to_bits(),
        pixel_height: 128.0_f32.to_bits(),
        time: 0.5_f32.to_bits(),
        completion: 1.5_f32.to_bits(),
        recording_flash: 0.25_f32.to_bits(),
        queued_count: 2.0_f32.to_bits(),
    }
}

const NEAR: ExitDistances = ExitDistances { opacity: 0, visual_scale: 0, softness: 0 };

#[test]
fn a_completion_is_announced_after_the_morph() {
    let mut renderer = MetalRenderer::new(at(0));
    renderer.handle(Started, at(0));
    renderer.handle(Submitted { job_id: 1 }, at(50));
    renderer.handle(JobCompleted { job_id: 1 }, at(100));
    let plan = renderer.begin_frame(at(349));
    assert!(plan.visible);
    assert_eq!(renderer.phase, Phase::Transcribing);
    let plan = renderer.begin_frame(at(350));
    assert!(plan.visible);
    assert_eq!(plan.elapsed, Duration::from_millis(0));
    assert_eq!(renderer.phase, Phase::Completed);
    assert_eq!(renderer.phase_started, at(350));
    assert_eq!(renderer.springs.width, Spring::new(CAPSULE_HEIGHT));
    assert_eq!(renderer.springs.processing, Spring::new(ONE));
    assert!(renderer.begin_frame(at(589)).visible);
    assert!(!renderer.exiting);
    assert!(!renderer.begin_frame(at(590)).visible);
    assert!(renderer.exiting);
    assert!(!renderer.begin_frame(at(5_000)).visible);
}

#[test]
fn frames_keep_the_work_and_the_look() {
    let mut renderer = MetalRenderer::new(at(0));
    renderer.handle(Submitted { job_id: 5 }, at(0));
    renderer.handle(EditingStarted, at(10));
    let tuning = renderer.tuning;
    for i in 2..100 {
        let plan = renderer.begin_frame(at(10 * i));
        renderer.apply_step(reached(&plan.springs), ZERO);
    }
    assert!(renderer.capturing && renderer.editing);
    assert_eq!(renderer.phase, Phase::Recording);
    assert_eq!(renderer.phase_started, at(10));
    assert_eq!(renderer.render_started, at(10));
    assert_eq!(renderer.jobs.len(), 1);
    assert_eq!(renderer.tuning, tuning);
}

#[test]
fn terminal_phases_last_their_time() {
    let mut renderer = MetalRenderer::new(at(0));
    renderer.handle(Started, at(0));
    assert!(renderer.begin_frame(at(100_000)).visible);
    renderer.handle(Failed, at(100_000));
    assert!(renderer.begin_frame(at(100_599)).visible);
    assert!(!renderer.begin_frame(at(100_600)).visible);
    renderer.handle(Started, at(200_000));
    renderer.handle(Cancelled, at(200_100));
    assert!(!renderer.begin_frame(at(200_100)).visible);
}

#[test]
fn an_exit_starts_at_rest() {
    let mut renderer = MetalRenderer::new(at(0));
    renderer.handle(Started, at(0));
    let moving = Spring { value: ONE, velocity: ONE };
    renderer.springs.opacity = moving;
    renderer.springs.visual_scale = moving;
    renderer.springs.softness = moving;
    renderer.begin_frame(at(10));
    assert_eq!(renderer.springs.opacity, moving);
    renderer.handle(Cancelled, at(20));
    let plan = renderer.begin_frame(at(30));
    assert_eq!(plan.springs.opacity.spring, Spring::new(ONE));
    assert_eq!(plan.springs.opacity.target, ZERO);
    assert_eq!(plan.springs.visual_scale.spring, Spring::new(ONE));
    assert_eq!(plan.springs.visual_scale.target, HIDDEN_SCALE);
    assert_eq!(plan.springs.softness.target, HIDDEN_SOFTNESS);
    renderer.springs.opacity = moving;
    assert_eq!(renderer.begin_frame(at(40)).springs.opacity.spring, moving);
}

#[test]
fn steps_are_bounded() {
    let mut renderer = MetalRenderer::new(at(0));
    assert_eq!(renderer.begin_frame(at(16)).step, Duration::from_millis(16));
    assert_eq!(renderer.begin_frame(at(66)).step, Duration::from_millis(50));
    assert_eq!(renderer.begin_frame(at(900)).step, Duration::from_millis(50));
    assert_eq!(renderer.begin_frame(at(800)).step, Duration::from_millis(0));
}

#[test]
fn the_phase_pulls_the_springs() {
    let mut renderer = MetalRenderer::new(at(0));
    renderer.handle(Started, at(0));
    let steps = renderer.begin_frame(at(10)).springs;
    assert_eq!(steps.width.target, CAPSULE_WIDTH);
    assert_eq!(steps.processing.target, ZERO);
    assert_eq!(steps.opacity.target, ONE);
    assert_eq!(steps.average.angular_frequency, 22.0_f32.to_bits());
    assert_eq!(steps.peak.angular_frequency, 26.0_f32.to_bits());
    renderer.handle(Submitted { job_id: 2 }, at(20));
    let steps = renderer.begin_frame(at(30)).springs;
    assert_eq!(steps.width.target, CAPSULE_HEIGHT);
    assert_eq!(steps.processing.target, ONE);
    assert_eq!(steps.post_processing.target, ZERO);
    renderer.handle(Processing { job_id: 2 }, at(40));
    let steps = renderer.begin_frame(at(50)).springs;
    assert_eq!(steps.post_processing.target, ONE);
    assert_eq!(steps.height.target, CAPSULE_HEIGHT);
}

#[test]
fn measures_follow_the_phase() {
    let mut renderer = MetalRenderer::new(at(0));
    renderer.handle(Submitted { job_id: 1 }, at(0));
    renderer.handle(Submitted { job_id: 2 }, at(0));
    let plan = renderer.begin_frame(at(10));
    let measures = renderer.frame_measures(&plan);
    assert_eq!(measures.queued_count, 1);
    assert_eq!(measures.completion, None);
    assert_eq!(measures.recording_flash, None);
    renderer.handle(Started, at(20));
    let plan = renderer.begin_frame(at(50));
    let measures = renderer.frame_measures(&plan);
    assert_eq!(measures.queued_count, 2);
    assert_eq!(measures.recording_flash, Some(Duration::from_millis(30)));
    assert_eq!(measures.time, Duration::from_millis(30));
    let empty = MetalRenderer::new(at(0));
    assert_eq!(empty.frame_measures(&plan).queued_count, 0);
}

#[test]
fn measures_come_with_what_they_are_counted_in() {
    let mut renderer = MetalRenderer::new(at(0));
    renderer.handle(Started, at(0));
    let plan = renderer.begin_frame(at(70));
    let operands = renderer.frame_measures(&plan).operands();
    let (width, height) = (112.0_f32.to_bits(), 64.0_f32.to_bits());
    let scale = 2.0_f32.to_bits();
    assert_eq!(operands.surface, Surface { width, height, scale });
    assert_eq!(operands.surface, Surface::at(scale));
    assert_eq!(operands.time, Duration::from_millis(70));
    assert_eq!(operands.completion, None);
    let elapsed = Duration::from_millis(70);
    let span = Duration::from_millis(280);
    assert_eq!(operands.recording_flash, Some(Progress { elapsed, span }));
    assert_eq!(operands.queued_count, 0);

    renderer.handle(Submitted { job_id: 1 }, at(100));
    renderer.handle(JobCompleted { job_id: 1 }, at(200));
    renderer.begin_frame(at(450));
    let plan = renderer.begin_frame(at(510));
    let operands = renderer.frame_measures(&plan).operands();
    let elapsed = Duration::from_millis(60);
    let span = Duration::from_millis(240);
    assert_eq!(operands.completion, Some(Progress { elapsed, span }));
    assert_eq!(operands.recording_flash, None);
}

#[test]
fn the_peak_decays_with_the_step() {
    let mut renderer = MetalRenderer::new(at(0));
    renderer.handle(Started, at(0));
    renderer.set_levels(ONE, 0.5_f32.to_bits());
    let plan = renderer.begin_frame(at(16));
    assert_eq!(
        renderer.peak_decay(&plan),
        PeakDecay {
            peak: 0.5_f32.to_bits(),
            factor: 0.91_f32.to_bits(),
            rate: 60.0_f32.to_bits(),
            step: Duration::from_millis(16),
        }
    );
}

#[test]
fn the_exit_is_measured_against_a_hidden_display() {
    let mut renderer = MetalRenderer::new(at(0));
    renderer.springs.opacity.value = 0.25_f32.to_bits();
    renderer.springs.visual_scale.value = 0.9_f32.to_bits();
    renderer.springs.softness.value = 1.5_f32.to_bits();
    let gap = |value: f32, target: f32| Gap {
        value: value.to_bits(),
        target: target.to_bits(),
    };
    let operands = renderer.exit_operands();
    assert_eq!(operands.opacity, gap(0.25, 0.0));
    assert_eq!(operands.visual_scale, gap(0.9, 0.82));
    assert_eq!(operands.softness, gap(1.5, 4.0));
    assert_eq!(renderer.scale_operands(ONE), gap(2.0, 1.0));
}

#[test]
fn uniforms_are_clamped() {
    let mut renderer = MetalRenderer::new(at(0));
    renderer.handle(Started, at(0));
    renderer.springs.opacity = Spring::new(1.2_f32.to_bits());
    renderer.springs.softness = Spring::new((-0.5_f32).to_bits());
    renderer.springs.visual_scale = Spring::new((-3.0_f32).to_bits());
    let uniforms = renderer.frame_uniforms(&values());
    assert_eq!(uniforms.opacity, ONE);
    assert_eq!(uniforms.softness, ZERO);
    assert_eq!(f32::from_bits(uniforms.scale), 0.01);
    assert_eq!(uniforms.capturing, ONE);
    assert_eq!(uniforms.editing, ZERO);
    assert_eq!(uniforms.completion, ZERO);
    assert_eq!(uniforms.recording_flash, 0.25_f32.to_bits());
    renderer.handle(EditingStarted, at(10));
    assert_eq!(renderer.frame_uniforms(&values()).recording_flash, ZERO);
    renderer.phase = Phase::Completed;
    assert_eq!(renderer.frame_uniforms(&values()).completion, ONE);
}

#[test]
fn rust_uniform_layout_matches_metal() {
    let mut renderer = MetalRenderer::new(at(0));
    renderer.handle(Started, at(0));
    let uniforms: Uniforms = renderer.frame_uniforms(&values());
    let words = uniforms.words();
    assert_eq!(std::mem::size_of_val(&words), 112);
    assert_eq!(words[0], uniforms.pixel_width);
    assert_eq!(words[1], uniforms.pixel_height);
    assert_eq!(words[2], uniforms.time);
    assert_eq!(words[14], uniforms.queued_count);
    assert_eq!(words[92 / 4], uniforms.sphere_outline);
    assert_eq!(words[96 / 4], uniforms.completion);
    assert_eq!(words[100 / 4], uniforms.recording_flash);
    assert_eq!(words[104 / 4], 0);
}

#[test]
fn the_scale_changes_only_noticeably() {
    let mut renderer = MetalRenderer::new(at(0));
    assert!(!renderer.set_scale(1.0_f32.to_bits(), 1.0e-8_f32.to_bits()));
    assert_eq!(renderer.scale, 2.0_f32.to_bits());
    assert!(renderer.set_scale(1.0_f32.to_bits(), (-1.0_f32).to_bits()));
    assert_eq!(renderer.scale, ONE);
    assert!(renderer.set_scale(3.0_f32.to_bits(), f32::EPSILON.to_bits()));
}

#[test]
fn drawing_goes_on_until_the_display_is_gone() {
    let mut shared = SharedRenderer::new(at(0));
    assert!(!shared.is_active());
    assert_eq!(shared.begin_draw(at(5)), None);
    shared.handle(Started, at(10));
    assert!(shared.is_active());
    let plan = shared.begin_draw(at(20)).unwrap();
    shared.renderer.apply_step(reached(&plan.springs), ZERO);
    shared.finish_draw(&plan, &NEAR);
    assert!(shared.is_active());
    shared.handle(Cancelled, at(30));
    let plan = shared.begin_draw(at(40)).unwrap();
    let fading = ExitDistances { opacity: 0.5_f32.to_bits(), ..NEAR };
    shared.finish_draw(&plan, &fading);
    assert!(shared.is_active());
    let plan = shared.begin_draw(at(50)).unwrap();
    shared.renderer.apply_step(reached(&plan.springs), ZERO);
    shared.finish_draw(&plan, &NEAR);
    assert!(!shared.is_active());
    assert_eq!(shared.begin_draw(at(60)), None);
    assert_eq!(shared.renderer.last_frame, at(50));
}

#[test]
fn a_start_outlasts_the_frame_under_way() {
    let mut shared = SharedRenderer::new(at(0));
    shared.handle(Reset, at(10));
    let plan = shared.begin_draw(at(20)).unwrap();
    assert!(!plan.visible);
    shared.handle(Started, at(30));
    shared.renderer.apply_step(reached(&plan.springs), ZERO);
    shared.finish_draw(&plan, &NEAR);
    assert!(shared.is_active());
}

#[test]
fn the_same_scale_is_set_once() {
    let mut renderer = MetalRenderer::new(at(0));
    assert!(renderer.set_scale(ONE, ONE));
    assert!(!renderer.set_scale(ONE, ZERO));
    assert_eq!(renderer.scale, ONE);
}

#[test]
fn a_fast_display_is_not_gone() {
    let mut renderer = MetalRenderer::new(at(0));
    let plan = renderer.begin_frame(at(10));
    assert!(!renderer.keeps_drawing(&plan, &NEAR));
    renderer.springs.softness.velocity = 1.0_f32.to_bits();
    assert!(renderer.keeps_drawing(&plan, &NEAR));
}
