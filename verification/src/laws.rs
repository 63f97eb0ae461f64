//! What holds of the display as a whole, over any run of events and frames.
use crate::event::DictationIndicatorEvent;
use crate::frame::{
    ExitDistances, FramePlan, FrameValues, LONGEST_STEP_MILLIS, PROCESSING_MORPH_MILLIS,
    SCALE_EPSILON, SMALLEST_SCALE,
};
use crate::phase::{JobPhase, Phase};
use crate::renderer::{RendererState, CAPSULE_HEIGHT, HIDDEN_SOFTNESS};
use crate::scalar::{is_at_most, is_less, is_nan, magnitude, Scalar, ONE, ZERO};
use crate::shared::SharedState;
use crate::spring::{Spring, Springs};
use crate::time::{Duration, Instant};
use vstd::prelude::*;

verus! {

/// A frame at `now`, which left the springs and the peak level as they are here.
pub struct Frame {
    pub now: Instant,
    pub springs: Springs,
    pub target_peak: Scalar,
}

/// Something that happens to a renderer.
pub enum Input {
    Event { event: DictationIndicatorEvent, now: Instant },
    Levels { average: Scalar, peak: Scalar },
    Frame { frame: Frame },
    Scale { scale: Scalar, difference: Scalar },
}

impl RendererState {
    /// The display after a frame.
    pub open spec fn after_frame(self, frame: Frame) -> RendererState {
        self.frame_begun(frame.now).stepped(frame.springs, frame.target_peak)
    }

    /// The display after a run of frames.
    pub open spec fn after_frames(self, frames: Seq<Frame>) -> RendererState
        decreases frames.len(),
    {
        if frames.len() == 0 {
            self
        } else {
            self.after_frames(frames.drop_last()).after_frame(frames.last())
        }
    }

    /// The display after an input.
    pub open spec fn after_input(self, input: Input) -> RendererState {
        match input {
            Input::Event { event, now } => self.handled(event, now),
            Input::Levels { average, peak } => self.levels_set(average, peak),
            Input::Frame { frame } => self.after_frame(frame),
            Input::Scale { scale, difference } => self.scaled(scale, difference),
        }
    }

    /// The display after a run of inputs.
    pub open spec fn after_inputs(self, inputs: Seq<Input>) -> RendererState
        decreases inputs.len(),
    {
        if inputs.len() == 0 {
            self
        } else {
            self.after_inputs(inputs.drop_last()).after_input(inputs.last())
        }
    }
}

/// The job that an event is about, other than its submission.
pub open spec fn job_of(event: DictationIndicatorEvent) -> Option<u64> {
    match event {
        DictationIndicatorEvent::Transcribing { job_id } => Some(job_id),
        DictationIndicatorEvent::Processing { job_id } => Some(job_id),
        DictationIndicatorEvent::JobCompleted { job_id } => Some(job_id),
        DictationIndicatorEvent::JobCancelled { job_id } => Some(job_id),
        DictationIndicatorEvent::JobFailed { job_id } => Some(job_id),
        _ => None,
    }
}

/// Whether an event ends the job that it is about.
pub open spec fn ends_job(event: DictationIndicatorEvent) -> bool {
    event is JobCompleted || event is JobCancelled || event is JobFailed
}

/// Whether an event ends the recording that is going on.
pub open spec fn ends_recording(event: DictationIndicatorEvent) -> bool {
    ||| event is Reset
    ||| event is Submitted
    ||| event is Discarded
    ||| event is Cancelled
    ||| event is Failed
}

/// A display that keeps to its invariant keeps to it through any input.
pub proof fn law_inputs_keep_the_invariant(state: RendererState, input: Input)
    requires
        state.wf(),
    ensures
        state.after_input(input).wf(),
{
}

/// Whatever happens to a new display, it records exactly while sound is captured, shows the
/// work at hand, and announces that it is done only when no work is left.
pub proof fn law_displays_are_consistent(created: Instant, inputs: Seq<Input>)
    ensures
        RendererState::initial(created).after_inputs(inputs).wf(),
    decreases inputs.len(),
{
    if inputs.len() > 0 {
        law_displays_are_consistent(created, inputs.drop_last());
        law_inputs_keep_the_invariant(
            RendererState::initial(created).after_inputs(inputs.drop_last()),
            inputs.last(),
        );
    }
}

/// While sound is captured, nothing replaces the recording phase but the end of the
/// recording: no frame, and no event about a job.
pub proof fn law_recording_stays(state: RendererState, input: Input)
    requires
        state.wf(),
        state.capturing,
        input matches Input::Event { event, .. } ==> !ends_recording(event),
    ensures
        state.after_input(input).phase == Phase::Recording,
        state.after_input(input).capturing,
        !state.after_input(input).completion_pending,
        !state.completion_pending,
{
    law_inputs_keep_the_invariant(state, input);
}

/// A start shows a recording from its very beginning, whatever came before: only the pending
/// jobs, the scale and the look are kept.
pub proof fn law_start_forgets_the_past(
    one: RendererState,
    other: RendererState,
    event: DictationIndicatorEvent,
    now: Instant,
)
    requires
        event.is_start(),
        one.jobs == other.jobs,
        one.scale == other.scale,
        one.tuning == other.tuning,
    ensures
        one.handled(event, now) == other.handled(event, now),
        one.handled(event, now).phase == Phase::Recording,
        one.handled(event, now).editing == event is EditingStarted,
{
}

/// How far the display has appeared or faded is a matter of its frames alone: of all events,
/// only a start touches it.
pub proof fn law_events_leave_the_appearance_alone(
    state: RendererState,
    event: DictationIndicatorEvent,
    now: Instant,
)
    requires
        !event.is_start(),
    ensures
        ({
            let after = state.handled(event, now);
            &&& after.springs.opacity == state.springs.opacity
            &&& after.springs.visual_scale == state.springs.visual_scale
            &&& after.springs.softness == state.springs.softness
            &&& after.exiting == state.exiting
            &&& after.render_started == state.render_started
            &&& after.last_frame == state.last_frame
        }),
{
}

/// The levels move towards something between zero and one, as far as the measured ones are
/// numbers.
pub proof fn law_levels_are_in_range(state: RendererState, average: Scalar, peak: Scalar)
    ensures
        ({
            let after = state.levels_set(average, peak);
            &&& !is_nan(average) ==> is_at_most(ZERO, after.target_average) && is_at_most(
                after.target_average,
                ONE,
            )
            &&& !is_nan(peak) ==> is_at_most(ZERO, after.target_peak) && is_at_most(
                after.target_peak,
                ONE,
            )
        }),
{
}

/// An event about a job that is not pending changes nothing.
pub proof fn law_unknown_jobs_are_ignored(
    state: RendererState,
    event: DictationIndicatorEvent,
    now: Instant,
)
    requires
        job_of(event) matches Some(job_id) && !state.jobs.contains_key(job_id),
    ensures
        state.handled(event, now) == state,
{
}

/// An event about a job leaves the other jobs as they are.
pub proof fn law_jobs_are_independent(
    state: RendererState,
    event: DictationIndicatorEvent,
    now: Instant,
    other: u64,
)
    requires
        job_of(event) matches Some(job_id) && job_id != other,
    ensures
        state.handled(event, now).jobs.contains_key(other) == state.jobs.contains_key(other),
        state.jobs.contains_key(other) ==> state.handled(event, now).jobs[other]
            == state.jobs[other],
{
}

/// A submitted job is pending and queued, and gone once it ended, however it ended.
pub proof fn law_jobs_end(
    state: RendererState,
    job_id: u64,
    submitted: Instant,
    event: DictationIndicatorEvent,
    ended: Instant,
)
    requires
        ends_job(event),
        job_of(event) == Some(job_id),
    ensures
        ({
            let event_before = DictationIndicatorEvent::Submitted { job_id };
            let pending = state.handled(event_before, submitted);
            &&& pending.jobs == state.jobs.insert(job_id, JobPhase::Queued)
            &&& pending.handled(event, ended).jobs == state.jobs.remove(job_id)
        }),
{
    let pending = state.handled(DictationIndicatorEvent::Submitted { job_id }, submitted);
    assert(pending.handled(event, ended).jobs =~= state.jobs.remove(job_id));
}

/// While sound is captured, or while other jobs are pending, it makes no difference how a job
/// ended: it is no longer pending, and the display goes on with the work that is left. A
/// recording goes on as it was; other jobs are shown from the end of this one on.
pub proof fn law_work_outlasts_the_end_of_a_job(
    state: RendererState,
    job_id: u64,
    event: DictationIndicatorEvent,
    now: Instant,
)
    requires
        state.jobs.dom().finite(),
        state.jobs.contains_key(job_id),
        state.capturing || state.jobs.len() >= 2,
        ends_job(event),
        job_of(event) == Some(job_id),
    ensures
        ({
            let after = state.handled(event, now);
            let rest = RendererState { jobs: state.jobs.remove(job_id), ..state };
            &&& state.capturing ==> after == (RendererState { phase: Phase::Recording, ..rest })
            &&& !state.capturing ==> after == (RendererState {
                phase: Phase::Transcribing,
                phase_started: now,
                completion_pending: false,
                target_average: ZERO,
                target_peak: ZERO,
                ..rest
            })
        }),
{
}

/// The end of a recording leaves the pending jobs as they are, unless everything is reset.
pub proof fn law_recordings_leave_jobs_alone(
    state: RendererState,
    event: DictationIndicatorEvent,
    now: Instant,
)
    requires
        event is Discarded || event is Cancelled || event is Failed,
    ensures
        state.handled(event, now).jobs == state.jobs,
        !state.handled(event, now).capturing,
{
}

/// A reset leaves nothing to show, at any time.
pub proof fn law_reset_hides(state: RendererState, now: Instant, later: Instant)
    ensures
        ({
            let after = state.handled(DictationIndicatorEvent::Reset, now);
            &&& after.jobs.is_empty()
            &&& after.phase == Phase::Hidden
            &&& after.work() is None
            &&& !after.visible_at(later)
        }),
{
}

/// Work at hand, and a completion that is still to be announced, stay on screen for as long
/// as they last.
pub proof fn law_work_is_visible(state: RendererState, now: Instant)
    requires
        state.wf(),
        state.work() is Some || state.completion_pending,
    ensures
        state.visible_at(now),
        state.frame_plan(now).visible,
{
}

/// Frames change neither the work nor the look.
pub proof fn law_frames_keep_the_work(state: RendererState, frames: Seq<Frame>)
    ensures
        ({
            let after = state.after_frames(frames);
            &&& after.capturing == state.capturing
            &&& after.editing == state.editing
            &&& after.jobs == state.jobs
            &&& after.render_started == state.render_started
            &&& after.scale == state.scale
            &&& after.tuning == state.tuning
        }),
    decreases frames.len(),
{
    if frames.len() > 0 {
        law_frames_keep_the_work(state, frames.drop_last());
    }
}

/// Frames leave the phase alone as long as no completion is due.
pub proof fn law_frames_keep_the_phase(state: RendererState, frames: Seq<Frame>)
    requires
        forall|i: int| 0 <= i < frames.len() ==> !state.completion_due((#[trigger] frames[i]).now),
    ensures
        state.after_frames(frames).phase == state.phase,
        state.after_frames(frames).phase_started == state.phase_started,
        state.after_frames(frames).completion_pending == state.completion_pending,
    decreases frames.len(),
{
    if frames.len() > 0 {
        let before = frames.drop_last();
        assert forall|i: int| 0 <= i < before.len() implies !state.completion_due(
            (#[trigger] before[i]).now,
        ) by {
            assert(before[i] == frames[i]);
        }
        law_frames_keep_the_phase(state, before);
        assert(!state.completion_due(frames[frames.len() - 1].now));
    }
}

/// When the last job is done, the display goes on showing work until the capsule had the
/// time to shrink; the first frame after that announces the completion, in the shape that
/// the capsule was to take, and from that frame on.
pub proof fn law_completion_is_announced(
    state: RendererState,
    job_id: u64,
    done: Instant,
    frames: Seq<Frame>,
    due: Frame,
)
    requires
        state.jobs.contains_key(job_id),
        !state.capturing,
        state.jobs.remove(job_id).len() == 0,
        forall|i: int|
            0 <= i < frames.len() ==> (#[trigger] frames[i]).now.since(done).nanos
                < Duration::of_millis(PROCESSING_MORPH_MILLIS).nanos,
        due.now.since(done).nanos >= Duration::of_millis(PROCESSING_MORPH_MILLIS).nanos,
    ensures
        ({
            let waiting = state.handled(
                DictationIndicatorEvent::JobCompleted { job_id },
                done,
            ).after_frames(frames);
            let announcing = waiting.frame_begun(due.now);
            &&& waiting.phase == Phase::Transcribing
            &&& waiting.completion_pending
            &&& waiting.visible_at(due.now)
            &&& announcing.phase == Phase::Completed
            &&& announcing.phase_started == due.now
            &&& !announcing.completion_pending
            &&& announcing.springs.width == Spring::at_rest(CAPSULE_HEIGHT)
            &&& announcing.springs.height == Spring::at_rest(CAPSULE_HEIGHT)
            &&& announcing.springs.processing == Spring::at_rest(ONE)
            &&& waiting.frame_plan(due.now).visible
            &&& waiting.frame_plan(due.now).elapsed == Duration::of_millis(0)
        }),
{
    let finished = state.handled(DictationIndicatorEvent::JobCompleted { job_id }, done);
    law_frames_keep_the_phase(finished, frames);
}

/// A phase that ends by itself is on screen for exactly its time, counted from its start,
/// however many frames are drawn.
pub proof fn law_terminal_phases_end(
    state: RendererState,
    span: Duration,
    frames: Seq<Frame>,
    now: Instant,
)
    requires
        state.wf(),
        state.phase.shown_for() == Some(span),
    ensures
        state.after_frames(frames).phase == state.phase,
        state.after_frames(frames).frame_plan(now).visible <==> now.since(
            state.phase_started,
        ).nanos < span.nanos,
{
    law_frames_keep_the_phase(state, frames);
}

/// A display that is off screen stays off screen until the next event, and is on its way
/// out from the first frame on.
pub proof fn law_exit_is_final(
    state: RendererState,
    frames: Seq<Frame>,
    left: Instant,
    now: Instant,
)
    requires
        state.wf(),
        !state.visible_at(left),
        left.nanos <= now.nanos,
    ensures
        !state.after_frames(frames).visible_at(now),
        !state.after_frames(frames).frame_plan(now).visible,
        state.after_frames(frames).frame_begun(now).exiting,
{
    law_frames_keep_the_phase(state, frames);
}

/// The appearance of a display is stopped when it starts to leave the screen, unless it was
/// already on its way out, and at no other time.
pub proof fn law_exit_starts_at_rest(state: RendererState, now: Instant)
    ensures
        ({
            let before = state.announced(now);
            let after = state.frame_begun(now);
            let starts = !before.visible_at(now) && !before.exiting;
            &&& starts ==> after.exiting && after.springs.opacity == before.springs.opacity.halted()
                && after.springs.visual_scale == before.springs.visual_scale.halted()
                && after.springs.softness == before.springs.softness.halted()
            &&& !starts ==> after.exiting == before.exiting && after.springs == before.springs
        }),
{
}

/// No frame moves the springs by more than the longest step.
pub proof fn law_steps_are_bounded(state: RendererState, now: Instant)
    ensures
        state.frame_plan(now).step.nanos <= Duration::of_millis(LONGEST_STEP_MILLIS).nanos,
        state.frame_plan(now).step.nanos <= now.since(state.last_frame).nanos,
{
}

/// Editing by voice shows no recording flash, and neither does a display that does not
/// record.
pub proof fn law_flash_is_for_dictation(state: RendererState, values: FrameValues)
    requires
        state.editing || state.phase != Phase::Recording,
    ensures
        state.uniforms(values).recording_flash == ZERO,
{
}

/// The shader is told levels, opacity and progress between zero and one, a softness no
/// larger than that of a hidden display, and a scale above zero, as far as they are numbers.
pub proof fn law_uniforms_are_in_range(state: RendererState, values: FrameValues)
    ensures
        ({
            let u = state.uniforms(values);
            &&& !is_nan(u.opacity) ==> is_at_most(ZERO, u.opacity) && is_at_most(u.opacity, ONE)
            &&& !is_nan(u.average) ==> is_at_most(ZERO, u.average) && is_at_most(u.average, ONE)
            &&& !is_nan(u.peak) ==> is_at_most(ZERO, u.peak) && is_at_most(u.peak, ONE)
            &&& !is_nan(u.processing) ==> is_at_most(ZERO, u.processing) && is_at_most(
                u.processing,
                ONE,
            )
            &&& !is_nan(u.post_processing) ==> is_at_most(ZERO, u.post_processing)
                && is_at_most(u.post_processing, ONE)
            &&& !is_nan(u.completion) ==> is_at_most(ZERO, u.completion) && is_at_most(
                u.completion,
                ONE,
            )
            &&& !is_nan(u.softness) ==> is_at_most(ZERO, u.softness) && is_at_most(
                u.softness,
                HIDDEN_SOFTNESS,
            )
            &&& is_at_most(SMALLEST_SCALE, u.scale)
        }),
{
}

/// Once the scale was set, setting the same scale again changes nothing: neither where the
/// first call found next to no difference, and the second finds the same, nor where the
/// first took the scale over, and there is no difference any more.
pub proof fn law_scale_is_set_once(state: RendererState, scale: Scalar, difference: Scalar)
    ensures
        ({
            let after = state.scaled(scale, difference);
            let kept = is_less(magnitude(difference), SCALE_EPSILON);
            &&& kept ==> after == state && after.scaled(scale, difference) == after
            &&& !kept ==> after.scale == scale
            &&& after.scaled(scale, ZERO) == after
        }),
{
}

/// A renderer at rest draws nothing and stays as it is; any event wakes it.
pub proof fn law_rest_lasts_until_an_event(
    state: SharedState,
    event: DictationIndicatorEvent,
    now: Instant,
)
    requires
        !state.active,
    ensures
        state.draw_begun(now) == state,
        state.handled(event, now).active,
{
}

/// A renderer goes to rest only after a frame in which the display was off screen, and so
/// never while there is work at hand or a completion to announce.
pub proof fn law_rest_comes_only_off_screen(
    state: SharedState,
    now: Instant,
    springs: Springs,
    target_peak: Scalar,
    distances: ExitDistances,
)
    requires
        state.active,
        state.renderer.wf(),
    ensures
        ({
            let plan = state.renderer.frame_plan(now);
            let begun = state.draw_begun(now);
            let drawn = SharedState {
                renderer: begun.renderer.stepped(springs, target_peak),
                ..begun
            };
            let after = drawn.draw_finished(plan, distances);
            &&& !after.active ==> !plan.visible && !after.renderer.visible_at(now)
            &&& state.renderer.work() is Some || state.renderer.completion_pending ==> after.active
        }),
{
    if state.renderer.work() is Some || state.renderer.completion_pending {
        law_work_is_visible(state.renderer, now);
    }
}

/// A frame that nothing interrupts ends by the visibility that it was planned with.
pub proof fn law_frames_end_as_planned(
    state: SharedState,
    now: Instant,
    springs: Springs,
    target_peak: Scalar,
    distances: ExitDistances,
)
    requires
        state.active,
    ensures
        ({
            let plan = state.renderer.frame_plan(now);
            let begun = state.draw_begun(now);
            let drawn = SharedState {
                renderer: begun.renderer.stepped(springs, target_peak),
                ..begun
            };
            drawn.draw_finished(plan, distances).active == (plan.visible || !drawn.renderer.gone(
                distances,
            ))
        }),
{
}

/// A recording that starts while a frame is under way keeps the renderer active, whatever the
/// frame was planned for.
pub proof fn law_starts_outlast_the_frame(
    state: SharedState,
    event: DictationIndicatorEvent,
    now: Instant,
    plan: FramePlan,
    springs: Springs,
    target_peak: Scalar,
    distances: ExitDistances,
)
    requires
        event.is_start(),
    ensures
        ({
            let started = state.handled(event, now);
            let drawn = SharedState {
                renderer: started.renderer.stepped(springs, target_peak),
                ..started
            };
            &&& started.draw_finished(plan, distances).active
            &&& drawn.draw_finished(plan, distances).active
        }),
{
}

} // verus!
