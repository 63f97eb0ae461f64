//! What a frame does and shows, one part of it after the other.
use crate::event::DictationIndicatorEvent;
use crate::event_laws::stays_in_place;
use crate::frame::{
    ExitDistances, FrameMeasures, FramePlan, FrameValues, Surface, Uniforms, APPEARANCE_EPSILON,
    APPEARANCE_VELOCITY_EPSILON, PEAK_DECAY, PEAK_DECAY_RATE, SCALE_EPSILON, SMALLEST_SCALE,
    SOFTNESS_EPSILON, SOFTNESS_VELOCITY_EPSILON, WINDOW_HEIGHT, WINDOW_WIDTH,
};
use crate::jobs::is_front;
use crate::phase::{JobPhase, Phase};
use crate::renderer::{
    RendererState, CAPSULE_HEIGHT, CAPSULE_WIDTH, HIDDEN_SCALE, HIDDEN_SOFTNESS,
};
use crate::scalar::{is_at_most, is_less, is_nan, magnitude, Scalar, ONE, ZERO};
use crate::shared::SharedState;
use crate::spring::{
    Springs, AVERAGE_ANGULAR_FREQUENCY, ENTRANCE_ANGULAR_FREQUENCY, EXIT_ANGULAR_FREQUENCY,
    GEOMETRY_ANGULAR_FREQUENCY, PEAK_ANGULAR_FREQUENCY,
};
use crate::time::{Duration, Instant};
use vstd::prelude::*;

verus! {

/// A hidden display is never on screen, and neither is one that was cancelled. A recording and
/// the pipeline stay, a completion is on screen for 240 milliseconds and a failure for 600.
pub proof fn law_phases_have_their_time_on_screen(phase: Phase, elapsed: Duration)
    ensures
        match phase {
            Phase::Hidden | Phase::Cancelled => !phase.is_visible(elapsed),
            Phase::Recording | Phase::Transcribing => phase.is_visible(elapsed),
            Phase::Completed => phase.is_visible(elapsed) <==> elapsed.nanos < 240 * 1_000_000,
            Phase::Failed => phase.is_visible(elapsed) <==> elapsed.nanos < 600 * 1_000_000,
        },
{
}

/// Whether a frame at `now` finds a completion that has waited for 250 milliseconds.
pub open spec fn finds_completion(state: RendererState, now: Instant) -> bool {
    state.completion_pending && now.nanos - state.phase_started.nanos >= 250 * 1_000_000
}

/// A frame announces a completion that has waited for 250 milliseconds, from that frame on,
/// and changes the phase for nothing else.
pub proof fn law_frames_announce_what_has_waited(state: RendererState, now: Instant)
    ensures
        ({
            let after = state.frame_begun(now);
            &&& finds_completion(state, now) ==> after.phase == Phase::Completed
                && after.phase_started == now && !after.completion_pending
            &&& !finds_completion(state, now) ==> after.phase == state.phase && after.phase_started
                == state.phase_started && after.completion_pending == state.completion_pending
        }),
{
}

/// The first frame in which the display is off screen sends it on its way out. Every frame
/// counts from the one before.
pub proof fn law_frames_send_the_display_out(state: RendererState, now: Instant)
    ensures
        ({
            let after = state.frame_begun(now);
            &&& after.exiting <==> state.exiting || !after.visible_at(now)
            &&& after.last_frame == now
        }),
{
}

/// A frame begins with everything where it was, except that a completion is announced in the
/// final shape of the capsule. An announcement stops all motion but that of the appearance,
/// and the way out begins with the appearance stopped.
pub proof fn law_frames_begin_in_place(state: RendererState, now: Instant)
    ensures
        ({
            let before = state.springs;
            let begun = state.frame_begun(now);
            let after = begun.springs;
            let announces = finds_completion(state, now);
            let leaves = !begun.visible_at(now) && !state.exiting;
            &&& stays_in_place(before.average, after.average, announces)
            &&& stays_in_place(before.peak, after.peak, announces)
            &&& stays_in_place(before.post_processing, after.post_processing, announces)
            &&& stays_in_place(before.opacity, after.opacity, leaves)
            &&& stays_in_place(before.visual_scale, after.visual_scale, leaves)
            &&& stays_in_place(before.softness, after.softness, leaves)
            &&& !announces ==> after.width == before.width && after.height == before.height
                && after.processing == before.processing
            &&& announces ==> {
                &&& after.width.value == CAPSULE_HEIGHT && after.width.velocity == ZERO
                &&& after.height.value == CAPSULE_HEIGHT && after.height.velocity == ZERO
                &&& after.processing.value == ONE && after.processing.velocity == ZERO
            }
            &&& announces ==> begun.target_average == before.average.value && begun.target_peak
                == before.peak.value
            &&& !announces ==> begun.target_average == state.target_average && begun.target_peak
                == state.target_peak
        }),
{
}

/// The plan of a frame tells the time, how long the phase has lasted and whether the display
/// is on screen; the springs move by the time since the last frame, or by 50 milliseconds if
/// that is longer.
pub proof fn law_plans_tell_the_time(state: RendererState, now: Instant)
    ensures
        ({
            let plan = state.frame_plan(now);
            let begun = state.frame_begun(now);
            let since_last = now.nanos - state.last_frame.nanos;
            let since_started = now.nanos - begun.phase_started.nanos;
            &&& plan.now == now
            &&& since_started >= 0 ==> plan.elapsed.nanos == since_started
            &&& since_started < 0 ==> plan.elapsed.nanos == 0
            &&& plan.visible == begun.phase.is_visible(plan.elapsed)
            &&& plan.visible == begun.visible_at(now)
            &&& since_last < 0 ==> plan.step.nanos == 0
            &&& 0 <= since_last <= 50 * 1_000_000 ==> plan.step.nanos == since_last
            &&& since_last > 50 * 1_000_000 ==> plan.step.nanos == 50 * 1_000_000
        }),
{
}

/// Each spring is moved from where the frame found it.
pub proof fn law_plans_move_each_spring_from_its_place(state: RendererState, now: Instant)
    ensures
        ({
            let from = state.frame_begun(now).springs;
            let steps = state.frame_plan(now).springs;
            &&& steps.average.spring == from.average && steps.peak.spring == from.peak
            &&& steps.width.spring == from.width && steps.height.spring == from.height
            &&& steps.processing.spring == from.processing
            &&& steps.post_processing.spring == from.post_processing
            &&& steps.opacity.spring == from.opacity
            &&& steps.visual_scale.spring == from.visual_scale
            &&& steps.softness.spring == from.softness
        }),
{
}

/// A display that is on screen becomes opaque, full size and sharp; one that is not becomes
/// transparent, small and soft.
pub proof fn law_visibility_decides_the_appearance(state: RendererState, now: Instant)
    ensures
        ({
            let plan = state.frame_plan(now);
            let steps = plan.springs;
            &&& plan.visible ==> {
                &&& steps.opacity.target == ONE
                &&& steps.visual_scale.target == ONE
                &&& steps.softness.target == ZERO
                &&& steps.opacity.angular_frequency == ENTRANCE_ANGULAR_FREQUENCY
                &&& steps.visual_scale.angular_frequency == ENTRANCE_ANGULAR_FREQUENCY
                &&& steps.softness.angular_frequency == ENTRANCE_ANGULAR_FREQUENCY
            }
            &&& !plan.visible ==> {
                &&& steps.opacity.target == ZERO
                &&& steps.visual_scale.target == HIDDEN_SCALE
                &&& steps.softness.target == HIDDEN_SOFTNESS
                &&& steps.opacity.angular_frequency == EXIT_ANGULAR_FREQUENCY
                &&& steps.visual_scale.angular_frequency == EXIT_ANGULAR_FREQUENCY
                &&& steps.softness.angular_frequency == EXIT_ANGULAR_FREQUENCY
            }
        }),
{
}

/// A recording widens the capsule and takes the look of work off it, the pipeline does the
/// reverse, and any other phase keeps the capsule as it is. It never becomes higher.
pub proof fn law_phase_decides_the_shape(state: RendererState, now: Instant)
    ensures
        ({
            let begun = state.frame_begun(now);
            let steps = state.frame_plan(now).springs;
            &&& steps.height.target == CAPSULE_HEIGHT
            &&& begun.phase == Phase::Recording ==> steps.width.target == CAPSULE_WIDTH
                && steps.processing.target == ZERO
            &&& begun.phase == Phase::Transcribing ==> steps.width.target == CAPSULE_HEIGHT
                && steps.processing.target == ONE
            &&& begun.phase != Phase::Recording && begun.phase != Phase::Transcribing
                ==> steps.width.target == begun.springs.width.value && steps.processing.target
                == begun.springs.processing.value
            &&& steps.width.angular_frequency == GEOMETRY_ANGULAR_FREQUENCY
            &&& steps.height.angular_frequency == GEOMETRY_ANGULAR_FREQUENCY
            &&& steps.processing.angular_frequency == GEOMETRY_ANGULAR_FREQUENCY
        }),
{
}

/// The levels move towards those of the sound.
pub proof fn law_sound_decides_the_levels(state: RendererState, now: Instant)
    ensures
        ({
            let begun = state.frame_begun(now);
            let steps = state.frame_plan(now).springs;
            &&& steps.average.target == begun.target_average
            &&& steps.peak.target == begun.target_peak
            &&& steps.average.angular_frequency == AVERAGE_ANGULAR_FREQUENCY
            &&& steps.peak.angular_frequency == PEAK_ANGULAR_FREQUENCY
        }),
{
}

/// The display takes on the look of processing exactly while the pending job with the
/// smallest id is being processed.
pub proof fn law_first_job_decides_the_processing_look(
    state: RendererState,
    now: Instant,
    first: u64,
)
    ensures
        ({
            let step = state.frame_plan(now).springs.post_processing;
            let is_first = state.jobs.contains_key(first) && forall|other: u64|
                other < first ==> !(#[trigger] state.jobs.contains_key(other));
            &&& is_first && state.jobs[first] == JobPhase::Processing ==> step.target == ONE
            &&& is_first && state.jobs[first] != JobPhase::Processing ==> step.target == ZERO
            &&& (forall|id: u64| !(#[trigger] state.jobs.contains_key(id))) ==> step.target == ZERO
            &&& step.angular_frequency == GEOMETRY_ANGULAR_FREQUENCY
        }),
{
    let is_first = state.jobs.contains_key(first) && forall|other: u64|
        other < first ==> !(#[trigger] state.jobs.contains_key(other));
    if is_first {
        assert(is_front(state.jobs, first));
        assert forall|id: u64| #[trigger] is_front(state.jobs, id) implies id
            == first by {
            assert(state.jobs.contains_key(first));
            assert(state.jobs.contains_key(id));
        }
    }
}

/// A frame leaves the springs and the peak level as they were moved, and all else as it was.
pub proof fn law_steps_move_springs_and_peak(
    state: RendererState,
    springs: Springs,
    target_peak: Scalar,
)
    ensures
        ({
            let after = state.stepped(springs, target_peak);
            &&& after.springs == springs
            &&& after.target_peak == target_peak
            &&& RendererState { springs: state.springs, target_peak: state.target_peak, ..after }
                == state
        }),
{
}

/// All pending jobs wait during a recording; otherwise one of them is at work.
pub proof fn law_queue_leaves_out_the_job_at_work(state: RendererState, plan: FramePlan)
    requires
        state.jobs.dom().finite(),
        state.jobs.len() <= usize::MAX,
    ensures
        ({
            let waiting = state.measures(plan).queued_count;
            &&& state.capturing ==> waiting == state.jobs.len()
            &&& !state.capturing && state.jobs.len() > 0 ==> waiting + 1 == state.jobs.len()
            &&& state.jobs.len() == 0 ==> waiting == 0
        }),
{
}

/// What is worked out for a frame: the time since the display appeared, the age of a
/// completion while one is shown, and the age of the flash while a dictation records.
pub proof fn law_measures_are_ages(state: RendererState, plan: FramePlan)
    ensures
        ({
            let since_shown = plan.now.nanos - state.render_started.nanos;
            let measures = state.measures(plan);
            let flashes = state.phase == Phase::Recording && !state.editing;
            let blooms = state.phase == Phase::Completed;
            &&& measures.scale == state.scale
            &&& since_shown >= 0 ==> measures.time.nanos == since_shown
            &&& since_shown < 0 ==> measures.time.nanos == 0
            &&& blooms ==> measures.completion == Some(plan.elapsed)
            &&& !blooms ==> measures.completion is None
            &&& flashes ==> measures.recording_flash == Some(plan.elapsed)
            &&& !flashes ==> measures.recording_flash is None
        }),
{
}

/// Ages are counted in the 240 milliseconds of a completion and in the 280 in which the flash
/// halves, and the size of the window is multiplied by the scale.
pub proof fn law_operands_have_their_units(measures: FrameMeasures)
    ensures
        ({
            let operands = measures.paired();
            &&& operands.surface.width == WINDOW_WIDTH
            &&& operands.surface.height == WINDOW_HEIGHT
            &&& operands.surface.scale == measures.scale
            &&& operands.surface == Surface::of_scale(measures.scale)
            &&& operands.time == measures.time
            &&& operands.queued_count == measures.queued_count
            &&& operands.completion is Some <==> measures.completion is Some
            &&& measures.completion matches Some(age) ==> {
                &&& operands.completion.unwrap().elapsed == age
                &&& operands.completion.unwrap().span.nanos == 240 * 1_000_000
            }
            &&& operands.recording_flash is Some <==> measures.recording_flash is Some
            &&& measures.recording_flash matches Some(age) ==> {
                &&& operands.recording_flash.unwrap().elapsed == age
                &&& operands.recording_flash.unwrap().span.nanos == 280 * 1_000_000
            }
        }),
{
}

/// The peak level decays from what it moves towards, and the appearance on its way out is
/// measured against that of a hidden display.
pub proof fn law_decay_and_exit_start_from_the_display(state: RendererState, step: Duration)
    ensures
        ({
            let decay = state.decay(step);
            let gaps = state.exit_gaps();
            &&& decay.peak == state.target_peak && decay.step == step
            &&& decay.factor == PEAK_DECAY && decay.rate == PEAK_DECAY_RATE
            &&& gaps.opacity.value == state.springs.opacity.value
            &&& gaps.visual_scale.value == state.springs.visual_scale.value
            &&& gaps.softness.value == state.springs.softness.value
            &&& gaps.opacity.target == ZERO
            &&& gaps.visual_scale.target == HIDDEN_SCALE
            &&& gaps.softness.target == HIDDEN_SOFTNESS
        }),
{
}

/// Whether `told` is `x`, or the end of the range from `low` to `high` that `x` lies beyond.
pub open spec fn is_confined(x: Scalar, low: Scalar, high: Scalar, told: Scalar) -> bool {
    &&& is_less(x, low) ==> told == low
    &&& is_less(high, x) ==> told == high
    &&& !is_less(x, low) && !is_less(high, x) ==> told == x
}

/// The shader draws the capsule as wide and as high as its springs say: right after a start,
/// as wide as for a recording.
pub proof fn law_shader_draws_the_shape(
    state: RendererState,
    values: FrameValues,
    event: DictationIndicatorEvent,
    now: Instant,
)
    requires
        event is Started || event is EditingStarted,
    ensures
        ({
            let told = state.uniforms(values);
            let started = state.handled(event, now).uniforms(values);
            &&& told.width == state.springs.width.value
            &&& told.height == state.springs.height.value
            &&& started.width == CAPSULE_WIDTH && started.height == CAPSULE_HEIGHT
        }),
{
}

/// The shader draws the appearance, the sound and the work as their springs say, each as far
/// as its range goes.
pub proof fn law_shader_draws_the_springs(state: RendererState, values: FrameValues)
    ensures
        ({
            let told = state.uniforms(values);
            let springs = state.springs;
            &&& is_confined(springs.opacity.value, ZERO, ONE, told.opacity)
            &&& is_confined(springs.softness.value, ZERO, HIDDEN_SOFTNESS, told.softness)
            &&& is_confined(springs.average.value, ZERO, ONE, told.average)
            &&& is_confined(springs.peak.value, ZERO, ONE, told.peak)
            &&& is_confined(springs.processing.value, ZERO, ONE, told.processing)
            &&& is_confined(springs.post_processing.value, ZERO, ONE, told.post_processing)
            &&& is_at_most(SMALLEST_SCALE, springs.visual_scale.value) ==> told.scale
                == springs.visual_scale.value
            &&& !is_at_most(SMALLEST_SCALE, springs.visual_scale.value) ==> told.scale
                == SMALLEST_SCALE
        }),
{
}

/// The shader is told yes or no by one or zero, and what was worked out as it is; the progress
/// of a completion only while one is shown, and the flash only while a dictation records.
pub proof fn law_shader_is_told_what_was_worked_out(state: RendererState, values: FrameValues)
    ensures
        ({
            let told = state.uniforms(values);
            &&& told.pixel_width == values.pixel_width
            &&& told.pixel_height == values.pixel_height
            &&& told.time == values.time
            &&& told.queued_count == values.queued_count
            &&& state.capturing ==> told.capturing == ONE
            &&& !state.capturing ==> told.capturing == ZERO
            &&& state.editing ==> told.editing == ONE
            &&& !state.editing ==> told.editing == ZERO
            &&& state.phase == Phase::Completed ==> is_confined(
                values.completion,
                ZERO,
                ONE,
                told.completion,
            )
            &&& state.phase != Phase::Completed ==> told.completion == ZERO
            &&& state.phase == Phase::Recording && !state.editing ==> told.recording_flash
                == values.recording_flash
            &&& state.phase != Phase::Recording || state.editing ==> told.recording_flash == ZERO
        }),
{
}

/// The shader is told the look as it was configured.
pub proof fn law_shader_is_told_the_look(state: RendererState, values: FrameValues)
    ensures
        ({
            let told = state.uniforms(values);
            let look = state.tuning;
            &&& told.line_style == look.style && told.line_count == look.line_count
            &&& told.line_curvature == look.curvature && told.line_speed == look.speed
            &&& told.line_sharpness == look.sharpness && told.line_glow == look.glow
            &&& told.sphere_depth == look.depth && told.light_angle == look.light_angle
            &&& told.sphere_outline == look.outline
        }),
{
}

/// The shader finds each uniform at its place, in words of four bytes, and zeros behind them
/// up to a size of 112 bytes.
pub proof fn law_uniforms_have_their_places(u: Uniforms)
    ensures
        u.layout().len() * 4 == 112,
        u.layout()[0] == u.pixel_width && u.layout()[1] == u.pixel_height,
        u.layout()[2] == u.time && u.layout()[3] == u.width && u.layout()[4] == u.height,
        u.layout()[5] == u.opacity && u.layout()[6] == u.scale && u.layout()[7] == u.softness,
        u.layout()[8] == u.average && u.layout()[9] == u.peak,
        u.layout()[10] == u.processing && u.layout()[11] == u.post_processing,
        u.layout()[12] == u.capturing && u.layout()[13] == u.editing,
        u.layout()[14] == u.queued_count && u.layout()[15] == u.line_style,
        u.layout()[16] == u.line_count && u.layout()[17] == u.line_curvature,
        u.layout()[18] == u.line_speed && u.layout()[19] == u.line_sharpness,
        u.layout()[20] == u.line_glow && u.layout()[21] == u.sphere_depth,
        u.layout()[22] == u.light_angle && u.layout()[23] == u.sphere_outline,
        u.layout()[24] == u.completion && u.layout()[25] == u.recording_flash,
        u.layout()[26] == 0 && u.layout()[27] == 0,
{
}

/// Drawing goes on until the display is off screen and its opacity, scale and softness have
/// all come to rest where a hidden display has them: none further away than its tolerance, and
/// none faster.
pub proof fn law_drawing_ends_when_all_has_come_to_rest(
    state: SharedState,
    plan: FramePlan,
    distances: ExitDistances,
)
    requires
        state.active,
    ensures
        ({
            let springs = state.renderer.springs;
            let at_rest = {
                &&& is_at_most(magnitude(distances.opacity), APPEARANCE_EPSILON)
                &&& is_at_most(magnitude(springs.opacity.velocity), APPEARANCE_VELOCITY_EPSILON)
                &&& is_at_most(magnitude(distances.visual_scale), APPEARANCE_EPSILON)
                &&& is_at_most(
                    magnitude(springs.visual_scale.velocity),
                    APPEARANCE_VELOCITY_EPSILON,
                )
                &&& is_at_most(magnitude(distances.softness), SOFTNESS_EPSILON)
                &&& is_at_most(magnitude(springs.softness.velocity), SOFTNESS_VELOCITY_EPSILON)
            };
            let after = state.draw_finished(plan, distances);
            &&& after.renderer == state.renderer
            &&& after.active <==> state.renderer.visible_at(plan.now) || !at_rest
        }),
{
}

/// An active renderer begins the frame that a renderer of its own would, and stays active.
pub proof fn law_active_renderers_begin_their_frame(state: SharedState, now: Instant)
    requires
        state.active,
    ensures
        state.draw_begun(now).active,
        state.draw_begun(now).renderer == state.renderer.frame_begun(now),
{
}

/// Measured levels change nothing but what the levels move towards: each towards its own
/// amplified level, as far as that is between zero and one.
pub proof fn law_levels_move_towards_the_measured_ones(
    state: RendererState,
    average: Scalar,
    peak: Scalar,
)
    ensures
        ({
            let after = state.levels_set(average, peak);
            &&& is_confined(average, ZERO, ONE, after.target_average)
            &&& is_confined(peak, ZERO, ONE, after.target_peak)
            &&& RendererState {
                target_average: state.target_average,
                target_peak: state.target_peak,
                ..after
            } == state
        }),
{
}

/// A new scale is taken over unless it differs by less than the smallest noticeable step, and
/// nothing else changes with it.
pub proof fn law_scale_is_taken_over(state: RendererState, scale: Scalar, difference: Scalar)
    ensures
        ({
            let after = state.scaled(scale, difference);
            let noticeable = is_nan(difference) || is_at_most(
                SCALE_EPSILON,
                magnitude(difference),
            );
            &&& noticeable ==> after.scale == scale
            &&& !noticeable ==> after.scale == state.scale
            &&& RendererState { scale: state.scale, ..after } == state
        }),
{
}

} // verus!
