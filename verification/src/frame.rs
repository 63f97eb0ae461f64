//! One frame of the display: what moves it, and what the shader is told.
use crate::jobs::{front_is_processing, front_processing};
use crate::phase::{flash_age, recording_flash_for, Phase, COMPLETED_MILLIS};
use crate::renderer::{
    MetalRenderer, RendererState, CAPSULE_HEIGHT, CAPSULE_WIDTH, HIDDEN_SCALE, HIDDEN_SOFTNESS,
};
use crate::scalar::{
    absolute, clamp, clamped, is_less, less, magnitude, raise, raised, Scalar, ONE, ZERO,
};
use crate::spring::{
    Spring, SpringStep, SpringSteps, Springs, AVERAGE_ANGULAR_FREQUENCY,
    ENTRANCE_ANGULAR_FREQUENCY, EXIT_ANGULAR_FREQUENCY, GEOMETRY_ANGULAR_FREQUENCY,
    PEAK_ANGULAR_FREQUENCY,
};
use crate::time::{Duration, Instant};
use vstd::prelude::*;

verus! {

/// How long the capsule takes to shrink to its final shape, in milliseconds. A finished
/// job is announced no sooner.
pub const PROCESSING_MORPH_MILLIS: u64 = 250;

/// The time after which the recording flash is half as bright, in milliseconds.
pub const RECORDING_FLASH_HALF_LIFE_MILLIS: u64 = 280;

/// The longest time that the springs move by in one frame, in milliseconds.
pub const LONGEST_STEP_MILLIS: u64 = 50;

/// 0.91: what is left of the peak level after a sixtieth of a second.
pub const PEAK_DECAY: Scalar = 0x3f68_f5c3;

/// 60.0: how often per second the peak level decays.
pub const PEAK_DECAY_RATE: Scalar = 0x4270_0000;

/// 112.0: the width of the window in points.
pub const WINDOW_WIDTH: Scalar = 0x42e0_0000;

/// 64.0: the height of the window in points.
pub const WINDOW_HEIGHT: Scalar = 0x4280_0000;

/// 0.01: the smallest scale that the display is drawn at.
pub const SMALLEST_SCALE: Scalar = 0x3c23_d70a;

/// 2^-23: the difference below which two scales are the same.
pub const SCALE_EPSILON: Scalar = 0x3400_0000;

/// 0.002: how near to its target opacity or scale counts as settled.
pub const APPEARANCE_EPSILON: Scalar = 0x3b03_126f;

/// 0.002 * 24.0: how slow opacity or scale counts as settled.
pub const APPEARANCE_VELOCITY_EPSILON: Scalar = 0x3d44_9ba6;

/// 0.02: how near to its target softness counts as settled.
pub const SOFTNESS_EPSILON: Scalar = 0x3ca3_d70a;

/// 0.02 * 24.0: how slow softness counts as settled.
pub const SOFTNESS_VELOCITY_EPSILON: Scalar = 0x3ef5_c28f;

/// What moves the display during a frame. Each spring is to be moved by `step`; what they
/// become goes to `apply_step`.
#[derive(Clone, Copy, Debug, PartialEq, Eq, Structural)]
pub struct FramePlan {
    pub now: Instant,
    pub step: Duration,
    pub elapsed: Duration,
    pub visible: bool,
    pub springs: SpringSteps,
}

/// What a frame needs worked out of times and counts.
#[derive(Clone, Copy, Debug, PartialEq, Eq, Structural)]
pub struct FrameMeasures {
    /// The pixels per point, by which the size of the window is to be multiplied.
    pub scale: Scalar,
    /// The time since the display appeared.
    pub time: Duration,
    /// The age of the announcement that a job is done, if it shows.
    pub completion: Option<Duration>,
    /// The age of the recording flash, if it shows.
    pub recording_flash: Option<Duration>,
    /// The jobs that wait.
    pub queued_count: usize,
}

/// What was worked out of the measures of a frame.
#[derive(Clone, Copy, Debug, PartialEq, Eq, Structural)]
pub struct FrameValues {
    pub pixel_width: Scalar,
    pub pixel_height: Scalar,
    pub time: Scalar,
    pub completion: Scalar,
    pub recording_flash: Scalar,
    pub queued_count: Scalar,
}

/// How far the appearance of the display is from being off screen.
#[derive(Clone, Copy, Debug, PartialEq, Eq, Structural)]
pub struct ExitDistances {
    pub opacity: Scalar,
    pub visual_scale: Scalar,
    pub softness: Scalar,
}

/// A number and another that it is measured against: `value - target` is to be worked out.
#[derive(Clone, Copy, Debug, PartialEq, Eq, Structural)]
pub struct Gap {
    pub value: Scalar,
    pub target: Scalar,
}

/// What the distances of the appearance from being off screen are worked out of.
#[derive(Clone, Copy, Debug, PartialEq, Eq, Structural)]
pub struct ExitOperands {
    pub opacity: Gap,
    pub visual_scale: Gap,
    pub softness: Gap,
}

/// The peak level and how it decays: `peak` is to be multiplied by `factor` to the power of
/// `rate` times the seconds of `step`.
#[derive(Clone, Copy, Debug, PartialEq, Eq, Structural)]
pub struct PeakDecay {
    pub peak: Scalar,
    pub factor: Scalar,
    pub rate: Scalar,
    pub step: Duration,
}

/// A time and the span that it is counted in: `elapsed / span` is to be worked out.
#[derive(Clone, Copy, Debug, PartialEq, Eq, Structural)]
pub struct Progress {
    pub elapsed: Duration,
    pub span: Duration,
}

/// The size of the window in points, of which `width` and `height` are each to be multiplied
/// by `scale`.
#[derive(Clone, Copy, Debug, PartialEq, Eq, Structural)]
pub struct Surface {
    pub width: Scalar,
    pub height: Scalar,
    pub scale: Scalar,
}

/// What the values of a frame are worked out of.
#[derive(Clone, Copy, Debug, PartialEq, Eq, Structural)]
pub struct FrameOperands {
    /// The surface, for the size in pixels.
    pub surface: Surface,
    /// The time since the display appeared, to be given in seconds.
    pub time: Duration,
    /// The announcement that a job is done, counted in the time for which it shows.
    pub completion: Option<Progress>,
    /// The recording flash, counted in the time in which its brightness halves.
    pub recording_flash: Option<Progress>,
    /// The jobs that wait.
    pub queued_count: usize,
}

/// What the shader is told about a frame.
#[derive(Clone, Copy, Debug, PartialEq, Eq, Structural)]
pub struct Uniforms {
    pub pixel_width: Scalar,
    pub pixel_height: Scalar,
    pub time: Scalar,
    pub width: Scalar,
    pub height: Scalar,
    pub opacity: Scalar,
    pub scale: Scalar,
    pub softness: Scalar,
    pub average: Scalar,
    pub peak: Scalar,
    pub processing: Scalar,
    pub post_processing: Scalar,
    pub capturing: Scalar,
    pub editing: Scalar,
    pub queued_count: Scalar,
    pub line_style: Scalar,
    pub line_count: Scalar,
    pub line_curvature: Scalar,
    pub line_speed: Scalar,
    pub line_sharpness: Scalar,
    pub line_glow: Scalar,
    pub sphere_depth: Scalar,
    pub light_angle: Scalar,
    pub sphere_outline: Scalar,
    pub completion: Scalar,
    pub recording_flash: Scalar,
}

/// 1.0 for yes, 0.0 for no.
pub open spec fn flag(b: bool) -> Scalar {
    if b {
        ONE
    } else {
        ZERO
    }
}

/// Writes yes or no as a number.
fn to_flag(b: bool) -> (r: Scalar)
    ensures
        r == flag(b),
{
    if b {
        ONE
    } else {
        ZERO
    }
}

impl Surface {
    /// The surface at `scale` pixels per point.
    pub open spec fn of_scale(scale: Scalar) -> Surface {
        Surface { width: WINDOW_WIDTH, height: WINDOW_HEIGHT, scale }
    }

    /// Makes the surface at `scale` pixels per point.
    pub fn at(scale: Scalar) -> (surface: Surface)
        ensures
            surface == Surface::of_scale(scale),
    {
        Surface { width: WINDOW_WIDTH, height: WINDOW_HEIGHT, scale }
    }
}

/// `elapsed` counted in a span of `millis` milliseconds, if there is anything to count.
pub open spec fn counted_in(elapsed: Option<Duration>, millis: u64) -> Option<Progress> {
    match elapsed {
        Some(elapsed) => Some(Progress { elapsed, span: Duration::of_millis(millis) }),
        None => None,
    }
}

/// Pairs a time with the span that it is counted in.
fn count_in(elapsed: Option<Duration>, millis: u64) -> (progress: Option<Progress>)
    ensures
        progress == counted_in(elapsed, millis),
{
    match elapsed {
        Some(elapsed) => Some(Progress { elapsed, span: Duration::from_millis(millis) }),
        None => None,
    }
}

impl FrameMeasures {
    /// The measures, each with what it is to be worked out with.
    pub open spec fn paired(self) -> FrameOperands {
        FrameOperands {
            surface: Surface::of_scale(self.scale),
            time: self.time,
            completion: counted_in(self.completion, COMPLETED_MILLIS),
            recording_flash: counted_in(self.recording_flash, RECORDING_FLASH_HALF_LIFE_MILLIS),
            queued_count: self.queued_count,
        }
    }

    /// Pairs the measures with what they are to be worked out with; the results go to
    /// `frame_uniforms`.
    pub fn operands(&self) -> (operands: FrameOperands)
        ensures
            operands == self.paired(),
    {
        FrameOperands {
            surface: Surface::at(self.scale),
            time: self.time,
            completion: count_in(self.completion, COMPLETED_MILLIS),
            recording_flash: count_in(self.recording_flash, RECORDING_FLASH_HALF_LIFE_MILLIS),
            queued_count: self.queued_count,
        }
    }
}

impl RendererState {
    /// Whether the last job is done and the capsule has had the time to shrink.
    pub open spec fn completion_due(self, now: Instant) -> bool {
        self.completion_pending && now.since(self.phase_started).nanos >= Duration::of_millis(
            PROCESSING_MORPH_MILLIS,
        ).nanos
    }

    /// The display that announces that the last job is done, once it is due.
    pub open spec fn announced(self, now: Instant) -> RendererState {
        if self.completion_due(now) {
            RendererState {
                springs: Springs {
                    width: Spring::at_rest(CAPSULE_HEIGHT),
                    height: Spring::at_rest(CAPSULE_HEIGHT),
                    processing: Spring::at_rest(ONE),
                    ..self.springs
                },
                phase: Phase::Completed,
                phase_started: now,
                completion_pending: false,
                ..self
            }.frozen()
        } else {
            self
        }
    }

    /// Whether the display belongs on screen at `now`.
    pub open spec fn visible_at(self, now: Instant) -> bool {
        self.phase.is_visible(now.since(self.phase_started))
    }

    /// The display at the start of a frame at `now`. When it starts to leave the screen, its
    /// appearance is stopped first, so that it does not grow or sharpen on the way out, unless
    /// it was already on its way out.
    pub open spec fn frame_begun(self, now: Instant) -> RendererState {
        let shown = RendererState { last_frame: now, ..self.announced(now) };
        if !shown.visible_at(now) && !shown.exiting {
            RendererState {
                springs: Springs {
                    opacity: shown.springs.opacity.halted(),
                    visual_scale: shown.springs.visual_scale.halted(),
                    softness: shown.springs.softness.halted(),
                    ..shown.springs
                },
                exiting: true,
                ..shown
            }
        } else {
            shown
        }
    }

    /// The width that the capsule moves towards.
    pub open spec fn target_width(self) -> Scalar {
        match self.phase {
            Phase::Recording => CAPSULE_WIDTH,
            Phase::Transcribing => CAPSULE_HEIGHT,
            _ => self.springs.width.value,
        }
    }

    /// How much of the look of work in progress the capsule moves towards.
    pub open spec fn target_processing(self) -> Scalar {
        match self.phase {
            Phase::Recording => ZERO,
            Phase::Transcribing => ONE,
            _ => self.springs.processing.value,
        }
    }

    /// What pulls on the springs.
    pub open spec fn pulls(self, visible: bool) -> SpringSteps {
        let appearance = if visible {
            ENTRANCE_ANGULAR_FREQUENCY
        } else {
            EXIT_ANGULAR_FREQUENCY
        };
        SpringSteps {
            average: SpringStep {
                spring: self.springs.average,
                target: self.target_average,
                angular_frequency: AVERAGE_ANGULAR_FREQUENCY,
            },
            peak: SpringStep {
                spring: self.springs.peak,
                target: self.target_peak,
                angular_frequency: PEAK_ANGULAR_FREQUENCY,
            },
            width: SpringStep {
                spring: self.springs.width,
                target: self.target_width(),
                angular_frequency: GEOMETRY_ANGULAR_FREQUENCY,
            },
            height: SpringStep {
                spring: self.springs.height,
                target: CAPSULE_HEIGHT,
                angular_frequency: GEOMETRY_ANGULAR_FREQUENCY,
            },
            processing: SpringStep {
                spring: self.springs.processing,
                target: self.target_processing(),
                angular_frequency: GEOMETRY_ANGULAR_FREQUENCY,
            },
            post_processing: SpringStep {
                spring: self.springs.post_processing,
                target: flag(front_is_processing(self.jobs)),
                angular_frequency: GEOMETRY_ANGULAR_FREQUENCY,
            },
            opacity: SpringStep {
                spring: self.springs.opacity,
                target: flag(visible),
                angular_frequency: appearance,
            },
            visual_scale: SpringStep {
                spring: self.springs.visual_scale,
                target: if visible {
                    ONE
                } else {
                    HIDDEN_SCALE
                },
                angular_frequency: appearance,
            },
            softness: SpringStep {
                spring: self.springs.softness,
                target: if visible {
                    ZERO
                } else {
                    HIDDEN_SOFTNESS
                },
                angular_frequency: appearance,
            },
        }
    }

    /// The time that the springs move by in a frame at `now`.
    pub open spec fn step_at(self, now: Instant) -> Duration {
        let longest = Duration::of_millis(LONGEST_STEP_MILLIS);
        if now.since(self.last_frame).nanos < longest.nanos {
            now.since(self.last_frame)
        } else {
            longest
        }
    }

    /// The plan of a frame at `now`.
    pub open spec fn frame_plan(self, now: Instant) -> FramePlan {
        let begun = self.frame_begun(now);
        FramePlan {
            now,
            step: self.step_at(now),
            elapsed: now.since(begun.phase_started),
            visible: begun.visible_at(now),
            springs: begun.pulls(begun.visible_at(now)),
        }
    }

    /// The display after its springs moved and its peak level decayed.
    pub open spec fn stepped(self, springs: Springs, target_peak: Scalar) -> RendererState {
        RendererState { springs, target_peak, ..self }
    }

    /// The jobs that wait: all of them while recording, else all but the one at work.
    pub open spec fn queued(self) -> int {
        if self.capturing || self.jobs.len() == 0 {
            self.jobs.len() as int
        } else {
            self.jobs.len() - 1
        }
    }

    /// What the frame of `plan` needs worked out.
    pub open spec fn measures(self, plan: FramePlan) -> FrameMeasures {
        FrameMeasures {
            scale: self.scale,
            time: plan.now.since(self.render_started),
            completion: if self.phase == Phase::Completed {
                Some(plan.elapsed)
            } else {
                None
            },
            recording_flash: flash_age(self.phase, self.editing, plan.elapsed),
            queued_count: self.queued() as usize,
        }
    }

    /// What the shader is told.
    pub open spec fn uniforms(self, values: FrameValues) -> Uniforms {
        Uniforms {
            pixel_width: values.pixel_width,
            pixel_height: values.pixel_height,
            time: values.time,
            width: self.springs.width.value,
            height: self.springs.height.value,
            opacity: clamped(self.springs.opacity.value, ZERO, ONE),
            scale: raised(self.springs.visual_scale.value, SMALLEST_SCALE),
            softness: clamped(self.springs.softness.value, ZERO, HIDDEN_SOFTNESS),
            average: clamped(self.springs.average.value, ZERO, ONE),
            peak: clamped(self.springs.peak.value, ZERO, ONE),
            processing: clamped(self.springs.processing.value, ZERO, ONE),
            post_processing: clamped(self.springs.post_processing.value, ZERO, ONE),
            capturing: flag(self.capturing),
            editing: flag(self.editing),
            queued_count: values.queued_count,
            line_style: self.tuning.style,
            line_count: self.tuning.line_count,
            line_curvature: self.tuning.curvature,
            line_speed: self.tuning.speed,
            line_sharpness: self.tuning.sharpness,
            line_glow: self.tuning.glow,
            sphere_depth: self.tuning.depth,
            light_angle: self.tuning.light_angle,
            sphere_outline: self.tuning.outline,
            completion: if self.phase == Phase::Completed {
                clamped(values.completion, ZERO, ONE)
            } else {
                ZERO
            },
            recording_flash: if self.phase == Phase::Recording && !self.editing {
                values.recording_flash
            } else {
                ZERO
            },
        }
    }

    /// How the peak level decays in a frame that lasts `step`.
    pub open spec fn decay(self, step: Duration) -> PeakDecay {
        PeakDecay { peak: self.target_peak, factor: PEAK_DECAY, rate: PEAK_DECAY_RATE, step }
    }

    /// The appearance of the display against that of one that is off screen.
    pub open spec fn exit_gaps(self) -> ExitOperands {
        ExitOperands {
            opacity: Gap { value: self.springs.opacity.value, target: ZERO },
            visual_scale: Gap { value: self.springs.visual_scale.value, target: HIDDEN_SCALE },
            softness: Gap { value: self.springs.softness.value, target: HIDDEN_SOFTNESS },
        }
    }

    /// Whether the display has faded out completely.
    pub open spec fn gone(self, distances: ExitDistances) -> bool {
        &&& self.springs.opacity.settled(
            distances.opacity,
            APPEARANCE_EPSILON,
            APPEARANCE_VELOCITY_EPSILON,
        )
        &&& self.springs.visual_scale.settled(
            distances.visual_scale,
            APPEARANCE_EPSILON,
            APPEARANCE_VELOCITY_EPSILON,
        )
        &&& self.springs.softness.settled(
            distances.softness,
            SOFTNESS_EPSILON,
            SOFTNESS_VELOCITY_EPSILON,
        )
    }

    /// The display at `scale` pixels per point.
    pub open spec fn scaled(self, scale: Scalar, difference: Scalar) -> RendererState {
        if is_less(magnitude(difference), SCALE_EPSILON) {
            self
        } else {
            RendererState { scale, ..self }
        }
    }
}

impl Uniforms {
    /// The uniforms in the order in which the shader reads them, padded to its alignment.
    pub open spec fn layout(self) -> Seq<u32> {
        seq![
            self.pixel_width,
            self.pixel_height,
            self.time,
            self.width,
            self.height,
            self.opacity,
            self.scale,
            self.softness,
            self.average,
            self.peak,
            self.processing,
            self.post_processing,
            self.capturing,
            self.editing,
            self.queued_count,
            self.line_style,
            self.line_count,
            self.line_curvature,
            self.line_speed,
            self.line_sharpness,
            self.line_glow,
            self.sphere_depth,
            self.light_angle,
            self.sphere_outline,
            self.completion,
            self.recording_flash,
            0,
            0,
        ]
    }

    /// Lays the uniforms out for the shader.
    pub fn words(&self) -> (words: [u32; 28])
        ensures
            words@ == self.layout(),
    {
        let words: [u32; 28] = [
            self.pixel_width,
            self.pixel_height,
            self.time,
            self.width,
            self.height,
            self.opacity,
            self.scale,
            self.softness,
            self.average,
            self.peak,
            self.processing,
            self.post_processing,
            self.capturing,
            self.editing,
            self.queued_count,
            self.line_style,
            self.line_count,
            self.line_curvature,
            self.line_speed,
            self.line_sharpness,
            self.line_glow,
            self.sphere_depth,
            self.light_angle,
            self.sphere_outline,
            self.completion,
            self.recording_flash,
            0,
            0,
        ];
        assert(words@ =~= self.layout());
        words
    }
}

impl MetalRenderer {
    /// Starts a frame: announces a finished job that is due, starts the exit of a display
    /// whose time is over, and says what moves the springs.
    pub fn begin_frame(&mut self, now: Instant) -> (plan: FramePlan)
        ensures
            final(self)@ == old(self)@.frame_begun(now),
            plan == old(self)@.frame_plan(now),
            old(self)@.wf() ==> final(self)@.wf(),
    {
        if self.completion_pending && now.duration_since(self.phase_started).nanos
            >= Duration::from_millis(PROCESSING_MORPH_MILLIS).nanos {
            self.springs.width.reset(CAPSULE_HEIGHT);
            self.springs.height.reset(CAPSULE_HEIGHT);
            self.springs.processing.reset(ONE);
            self.phase = Phase::Completed;
            self.phase_started = now;
            self.completion_pending = false;
            self.freeze_visual_state();
        }
        let longest = Duration::from_millis(LONGEST_STEP_MILLIS);
        let since_last = now.duration_since(self.last_frame);
        let step = if since_last.nanos < longest.nanos {
            since_last
        } else {
            longest
        };
        self.last_frame = now;
        let elapsed = now.duration_since(self.phase_started);
        let visible = self.phase.visible(elapsed);
        if !visible && !self.exiting {
            self.springs.opacity.halt();
            self.springs.visual_scale.halt();
            self.springs.softness.halt();
            self.exiting = true;
        }
        let springs = self.spring_steps(visible);
        FramePlan { now, step, elapsed, visible, springs }
    }

    /// Says what pulls on the springs.
    fn spring_steps(&self, visible: bool) -> (steps: SpringSteps)
        ensures
            steps == self@.pulls(visible),
    {
        let target_width: Scalar = match self.phase {
            Phase::Recording => CAPSULE_WIDTH,
            Phase::Transcribing => CAPSULE_HEIGHT,
            Phase::Hidden | Phase::Completed | Phase::Cancelled | Phase::Failed => {
                self.springs.width.value
            },
        };
        let target_processing: Scalar = match self.phase {
            Phase::Recording => ZERO,
            Phase::Transcribing => ONE,
            Phase::Hidden | Phase::Completed | Phase::Cancelled | Phase::Failed => {
                self.springs.processing.value
            },
        };
        let target_post_processing: Scalar = to_flag(front_processing(&self.jobs));
        let visibility_frequency: Scalar = if visible {
            ENTRANCE_ANGULAR_FREQUENCY
        } else {
            EXIT_ANGULAR_FREQUENCY
        };
        SpringSteps {
            average: SpringStep {
                spring: self.springs.average,
                target: self.target_average,
                angular_frequency: AVERAGE_ANGULAR_FREQUENCY,
            },
            peak: SpringStep {
                spring: self.springs.peak,
                target: self.target_peak,
                angular_frequency: PEAK_ANGULAR_FREQUENCY,
            },
            width: SpringStep {
                spring: self.springs.width,
                target: target_width,
                angular_frequency: GEOMETRY_ANGULAR_FREQUENCY,
            },
            height: SpringStep {
                spring: self.springs.height,
                target: CAPSULE_HEIGHT,
                angular_frequency: GEOMETRY_ANGULAR_FREQUENCY,
            },
            processing: SpringStep {
                spring: self.springs.processing,
                target: target_processing,
                angular_frequency: GEOMETRY_ANGULAR_FREQUENCY,
            },
            post_processing: SpringStep {
                spring: self.springs.post_processing,
                target: target_post_processing,
                angular_frequency: GEOMETRY_ANGULAR_FREQUENCY,
            },
            opacity: SpringStep {
                spring: self.springs.opacity,
                target: to_flag(visible),
                angular_frequency: visibility_frequency,
            },
            visual_scale: SpringStep {
                spring: self.springs.visual_scale,
                target: if visible {
                    ONE
                } else {
                    HIDDEN_SCALE
                },
                angular_frequency: visibility_frequency,
            },
            softness: SpringStep {
                spring: self.springs.softness,
                target: if visible {
                    ZERO
                } else {
                    HIDDEN_SOFTNESS
                },
                angular_frequency: visibility_frequency,
            },
        }
    }

    /// Says how the peak level decays in the frame; what it becomes goes to `apply_step`.
    pub fn peak_decay(&self, plan: &FramePlan) -> (decay: PeakDecay)
        ensures
            decay == self@.decay(plan.step),
    {
        PeakDecay {
            peak: self.target_peak,
            factor: PEAK_DECAY,
            rate: PEAK_DECAY_RATE,
            step: plan.step,
        }
    }

    /// Takes over the springs and the peak level that the frame moved.
    pub fn apply_step(&mut self, springs: Springs, target_peak: Scalar)
        ensures
            final(self)@ == old(self)@.stepped(springs, target_peak),
            old(self)@.wf() ==> final(self)@.wf(),
    {
        self.springs = springs;
        self.target_peak = target_peak;
    }

    /// Says what has to be worked out before the frame can be drawn.
    pub fn frame_measures(&self, plan: &FramePlan) -> (measures: FrameMeasures)
        ensures
            measures.scale == self.scale,
            measures.time == plan.now.since(self.render_started),
            measures.completion == (if self.phase == Phase::Completed {
                Some(plan.elapsed)
            } else {
                None
            }),
            measures.recording_flash == flash_age(self.phase, self.editing, plan.elapsed),
            measures.queued_count == self@.queued(),
            measures == self@.measures(*plan),
    {
        let pending: usize = self.jobs.len();
        FrameMeasures {
            scale: self.scale,
            time: plan.now.duration_since(self.render_started),
            completion: if self.phase == Phase::Completed {
                Some(plan.elapsed)
            } else {
                None
            },
            recording_flash: recording_flash_for(self.phase, self.editing, plan.elapsed),
            queued_count: if self.capturing || pending == 0 {
                pending
            } else {
                pending - 1
            },
        }
    }

    /// Puts together what the shader is told.
    pub fn frame_uniforms(&self, values: &FrameValues) -> (uniforms: Uniforms)
        ensures
            uniforms == self@.uniforms(*values),
    {
        Uniforms {
            pixel_width: values.pixel_width,
            pixel_height: values.pixel_height,
            time: values.time,
            width: self.springs.width.value,
            height: self.springs.height.value,
            opacity: clamp(self.springs.opacity.value, ZERO, ONE),
            scale: raise(self.springs.visual_scale.value, SMALLEST_SCALE),
            softness: clamp(self.springs.softness.value, ZERO, HIDDEN_SOFTNESS),
            average: clamp(self.springs.average.value, ZERO, ONE),
            peak: clamp(self.springs.peak.value, ZERO, ONE),
            processing: clamp(self.springs.processing.value, ZERO, ONE),
            post_processing: clamp(self.springs.post_processing.value, ZERO, ONE),
            capturing: to_flag(self.capturing),
            editing: to_flag(self.editing),
            queued_count: values.queued_count,
            line_style: self.tuning.style,
            line_count: self.tuning.line_count,
            line_curvature: self.tuning.curvature,
            line_speed: self.tuning.speed,
            line_sharpness: self.tuning.sharpness,
            line_glow: self.tuning.glow,
            sphere_depth: self.tuning.depth,
            light_angle: self.tuning.light_angle,
            sphere_outline: self.tuning.outline,
            completion: if self.phase == Phase::Completed {
                clamp(values.completion, ZERO, ONE)
            } else {
                ZERO
            },
            recording_flash: if self.phase == Phase::Recording && !self.editing {
                values.recording_flash
            } else {
                ZERO
            },
        }
    }

    /// Says what the appearance is measured against on its way out; the distances go to
    /// `keeps_drawing`.
    pub fn exit_operands(&self) -> (operands: ExitOperands)
        ensures
            operands == self@.exit_gaps(),
    {
        ExitOperands {
            opacity: Gap { value: self.springs.opacity.value, target: ZERO },
            visual_scale: Gap { value: self.springs.visual_scale.value, target: HIDDEN_SCALE },
            softness: Gap { value: self.springs.softness.value, target: HIDDEN_SOFTNESS },
        }
    }

    /// Decides whether there is another frame to draw: there is while the display belongs on
    /// screen, and until it has faded out.
    pub fn keeps_drawing(&self, plan: &FramePlan, distances: &ExitDistances) -> (r: bool)
        ensures
            r == (self@.visible_at(plan.now) || !self@.gone(*distances)),
    {
        let elapsed = plan.now.duration_since(self.phase_started);
        self.phase.visible(elapsed) || !self.springs.opacity.is_settled(
            distances.opacity,
            APPEARANCE_EPSILON,
            APPEARANCE_VELOCITY_EPSILON,
        ) || !self.springs.visual_scale.is_settled(
            distances.visual_scale,
            APPEARANCE_EPSILON,
            APPEARANCE_VELOCITY_EPSILON,
        ) || !self.springs.softness.is_settled(
            distances.softness,
            SOFTNESS_EPSILON,
            SOFTNESS_VELOCITY_EPSILON,
        )
    }

    /// Says what a new scale is measured against; the difference goes to `set_scale`.
    pub fn scale_operands(&self, scale: Scalar) -> (gap: Gap)
        ensures
            gap == (Gap { value: self.scale, target: scale }),
    {
        Gap { value: self.scale, target: scale }
    }

    /// Takes over `scale`, which differs from the scale so far by `difference`, unless that
    /// is next to nothing. Says whether the surface has to be resized.
    pub fn set_scale(&mut self, scale: Scalar, difference: Scalar) -> (resized: bool)
        ensures
            final(self)@ == old(self)@.scaled(scale, difference),
            resized == !is_less(magnitude(difference), SCALE_EPSILON),
            old(self)@.wf() ==> final(self)@.wf(),
    {
        if less(absolute(difference), SCALE_EPSILON) {
            return false;
        }
        self.scale = scale;
        true
    }
}

} // verus!
