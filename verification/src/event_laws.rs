//! What each event does to the display, one part of the display after the other.
use crate::event::{DictationIndicatorEvent, HudTuning};
use crate::laws::{ends_job, ends_recording, job_of, law_frames_keep_the_phase, Frame};
use crate::phase::{JobPhase, Phase};
use crate::renderer::{
    levels_of, RendererState, AVERAGE_GAIN, CAPSULE_HEIGHT, CAPSULE_WIDTH, HIDDEN_SCALE,
    HIDDEN_SOFTNESS, INITIAL_SCALE, PEAK_GAIN,
};
use crate::scalar::{Scalar, ZERO};
use crate::shared::SharedState;
use crate::spring::Spring;
use crate::time::Instant;
use crate::ui::{delivery_for, Delivery};
use vstd::prelude::*;

verus! {

/// Whether an event begins a recording.
pub open spec fn begins_recording(event: DictationIndicatorEvent) -> bool {
    event is Started || event is EditingStarted
}

/// Whether an event is about a job that is pending.
pub open spec fn is_about_pending_job(
    state: RendererState,
    event: DictationIndicatorEvent,
) -> bool {
    job_of(event) matches Some(job_id) && state.jobs.contains_key(job_id)
}

/// Whether an event ends the last piece of work: its job is pending, no other is, and nothing
/// is captured.
pub open spec fn ends_last_job(state: RendererState, event: DictationIndicatorEvent) -> bool {
    &&& ends_job(event)
    &&& is_about_pending_job(state, event)
    &&& !state.capturing
    &&& state.jobs.len() == 1
}

/// Whether an event gives the display something new to show.
pub open spec fn changes_the_scene(state: RendererState, event: DictationIndicatorEvent) -> bool {
    ||| begins_recording(event)
    ||| event is Submitted
    ||| event is Cancelled
    ||| event is Failed
    ||| event is Discarded && state.jobs.len() > 0
    ||| is_about_pending_job(state, event) && !state.capturing
}

/// Whether an event stops everything in the display but its appearance.
pub open spec fn stops_motion(state: RendererState, event: DictationIndicatorEvent) -> bool {
    ||| event is Reset
    ||| event is Discarded
    ||| event is Cancelled
    ||| event is Failed
    ||| ends_last_job(state, event) && !(event is JobCompleted)
}

/// Sound is captured from a start until the recording ends, whatever jobs are pending, and the
/// display shows voice editing from the event that says so until then or until a dictation
/// starts.
pub proof fn law_capture_lasts_from_start_to_end(
    state: RendererState,
    event: DictationIndicatorEvent,
    now: Instant,
)
    ensures
        ({
            let after = state.handled(event, now);
            &&& after.capturing <==> begins_recording(event) || state.capturing && !ends_recording(
                event,
            )
            &&& after.editing <==> event is EditingStarted || event is PromotedToVoiceAction
                || state.editing && !(event is Started) && !ends_recording(event)
        }),
{
}

/// A job is pending from its submission until it ends or everything is reset, and is in the
/// phase that the last event about it says.
pub proof fn law_jobs_follow_their_events(
    state: RendererState,
    event: DictationIndicatorEvent,
    now: Instant,
    job_id: u64,
)
    ensures
        ({
            let before = state.jobs;
            let after = state.handled(event, now).jobs;
            let ended = event is Reset || ends_job(event) && job_of(event) == Some(job_id);
            let submitted = event == (DictationIndicatorEvent::Submitted { job_id });
            let transcribing = event == (DictationIndicatorEvent::Transcribing { job_id });
            let processing = event == (DictationIndicatorEvent::Processing { job_id });
            &&& after.contains_key(job_id) <==> submitted || before.contains_key(job_id) && !ended
            &&& after.contains_key(job_id) ==> {
                &&& submitted ==> after[job_id] == JobPhase::Queued
                &&& transcribing ==> after[job_id] == JobPhase::Transcribing
                &&& processing ==> after[job_id] == JobPhase::Processing
                &&& !submitted && !transcribing && !processing ==> after[job_id] == before[job_id]
            }
        }),
{
}

/// A recording that is handed in is over, whether or not other jobs are pending, and the
/// display shows the pipeline from that moment on.
pub proof fn law_submissions_show_the_pipeline(
    state: RendererState,
    job_id: u64,
    now: Instant,
    later: Instant,
)
    requires
        state.jobs.dom().finite(),
    ensures
        ({
            let after = state.handled(DictationIndicatorEvent::Submitted { job_id }, now);
            &&& !after.capturing
            &&& !after.editing
            &&& after.phase == Phase::Transcribing
            &&& after.phase_started == now
            &&& !after.completion_pending
            &&& after.visible_at(later)
        }),
{
}

/// A recording is shown while sound is captured, and the pipeline while jobs are pending.
/// Otherwise the display shows how the last piece of work ended, or goes on as before.
pub proof fn law_phase_shows_the_work_or_its_end(
    state: RendererState,
    event: DictationIndicatorEvent,
    now: Instant,
)
    requires
        state.wf(),
    ensures
        ({
            let after = state.handled(event, now);
            let idle = !after.capturing && after.jobs.len() == 0;
            let ends = ends_last_job(state, event);
            &&& after.capturing ==> after.phase == Phase::Recording
            &&& !after.capturing && after.jobs.len() > 0 ==> after.phase == Phase::Transcribing
            &&& event is Reset ==> after.phase == Phase::Hidden
            &&& idle && event is Discarded ==> after.phase == Phase::Hidden
            &&& idle && event is Cancelled ==> after.phase == Phase::Cancelled
            &&& idle && event is Failed ==> after.phase == Phase::Failed
            &&& ends && event is JobCompleted ==> after.phase == Phase::Transcribing
            &&& ends && event is JobCancelled ==> after.phase == Phase::Cancelled
            &&& ends && event is JobFailed ==> after.phase == Phase::Failed
            &&& idle && !ends_recording(event) && !ends ==> after.phase == state.phase
        }),
{
}

/// The last job leaves nothing behind when it ends, and any other job leaves the rest.
pub proof fn law_last_jobs_leave_nothing(
    state: RendererState,
    event: DictationIndicatorEvent,
    now: Instant,
)
    requires
        state.jobs.dom().finite(),
        ends_job(event),
    ensures
        ({
            let after = state.handled(event, now);
            &&& is_about_pending_job(state, event) ==> after.jobs.len() == state.jobs.len() - 1
            &&& !is_about_pending_job(state, event) ==> after == state
        }),
{
}

/// A completion is to be announced from the success of the last job until new work or the end
/// of a recording comes up, and for nothing else.
pub proof fn law_only_success_is_announced(
    state: RendererState,
    event: DictationIndicatorEvent,
    now: Instant,
)
    requires
        state.wf(),
    ensures
        state.handled(event, now).completion_pending <==> ends_last_job(state, event)
            && event is JobCompleted || state.completion_pending && !begins_recording(event)
            && !ends_recording(event),
{
}

/// The time that is shown for a phase is counted from the event that gave the display
/// something new to show.
pub proof fn law_phases_start_with_their_event(
    state: RendererState,
    event: DictationIndicatorEvent,
    now: Instant,
)
    requires
        state.wf(),
    ensures
        changes_the_scene(state, event) ==> state.handled(event, now).phase_started == now,
        !changes_the_scene(state, event) ==> state.handled(event, now).phase_started
            == state.phase_started,
{
}

/// A start sets the clock of the animation, and brings a display back that is on its way out.
/// No other event does either.
pub proof fn law_starts_set_the_clock(
    state: RendererState,
    event: DictationIndicatorEvent,
    now: Instant,
)
    ensures
        ({
            let after = state.handled(event, now);
            &&& begins_recording(event) ==> after.render_started == now && after.last_frame == now
                && !after.exiting
            &&& !begins_recording(event) ==> after.render_started == state.render_started
                && after.last_frame == state.last_frame && after.exiting == state.exiting
        }),
{
}

/// A start shows the capsule in the shape for a recording, with no sound and no work in it,
/// unseen, small and soft, and at rest.
pub proof fn law_starts_begin_unseen(
    state: RendererState,
    event: DictationIndicatorEvent,
    now: Instant,
)
    requires
        begins_recording(event),
    ensures
        ({
            let springs = state.handled(event, now).springs;
            &&& springs.average.value == ZERO && springs.peak.value == ZERO
            &&& springs.width.value == CAPSULE_WIDTH && springs.height.value == CAPSULE_HEIGHT
            &&& springs.processing.value == ZERO && springs.post_processing.value == ZERO
            &&& springs.opacity.value == ZERO
            &&& springs.visual_scale.value == HIDDEN_SCALE
            &&& springs.softness.value == HIDDEN_SOFTNESS
            &&& springs.average.velocity == ZERO && springs.peak.velocity == ZERO
            &&& springs.width.velocity == ZERO && springs.height.velocity == ZERO
            &&& springs.processing.velocity == ZERO && springs.post_processing.velocity == ZERO
            &&& springs.opacity.velocity == ZERO && springs.visual_scale.velocity == ZERO
            &&& springs.softness.velocity == ZERO
        }),
{
}

/// Whether `after` is where `before` was, and still if `still`, else as fast as before.
pub open spec fn stays_in_place(before: Spring, after: Spring, still: bool) -> bool {
    &&& after.value == before.value
    &&& still ==> after.velocity == ZERO
    &&& !still ==> after.velocity == before.velocity
}

/// No event but a start moves anything: it stops all but the appearance, or leaves all springs
/// as they are.
pub proof fn law_events_move_nothing(
    state: RendererState,
    event: DictationIndicatorEvent,
    now: Instant,
)
    requires
        state.wf(),
        !begins_recording(event),
    ensures
        ({
            let before = state.springs;
            let after = state.handled(event, now).springs;
            let still = stops_motion(state, event);
            &&& stays_in_place(before.average, after.average, still)
            &&& stays_in_place(before.peak, after.peak, still)
            &&& stays_in_place(before.width, after.width, still)
            &&& stays_in_place(before.height, after.height, still)
            &&& stays_in_place(before.processing, after.processing, still)
            &&& stays_in_place(before.post_processing, after.post_processing, still)
            &&& stays_in_place(before.opacity, after.opacity, false)
            &&& stays_in_place(before.visual_scale, after.visual_scale, false)
            &&& stays_in_place(before.softness, after.softness, false)
        }),
{
}

/// The levels fall back to nothing when a recording starts and when the pipeline comes on
/// screen. When everything stops and nothing is left to show, they stay where they are. No
/// other event touches what they move towards.
pub proof fn law_levels_follow_the_scene(
    state: RendererState,
    event: DictationIndicatorEvent,
    now: Instant,
)
    requires
        state.wf(),
    ensures
        ({
            let after = state.handled(event, now);
            let pipeline = !after.capturing && after.jobs.len() > 0 && changes_the_scene(
                state,
                event,
            );
            let held = stops_motion(state, event) && after.jobs.len() == 0;
            &&& begins_recording(event) || pipeline ==> after.target_average == ZERO
                && after.target_peak == ZERO
            &&& held ==> after.target_average == state.springs.average.value && after.target_peak
                == state.springs.peak.value
            &&& !begins_recording(event) && !pipeline && !held ==> after.target_average
                == state.target_average && after.target_peak == state.target_peak
        }),
{
}

/// The look is what was last configured, and no event changes the scale.
pub proof fn law_look_is_what_was_configured(
    state: RendererState,
    event: DictationIndicatorEvent,
    now: Instant,
)
    ensures
        state.handled(event, now).scale == state.scale,
        event matches DictationIndicatorEvent::Configure(tuning) ==> state.handled(
            event,
            now,
        ).tuning == tuning,
        !(event is Configure) ==> state.handled(event, now).tuning == state.tuning,
{
}

/// To configure the look, to promote a dictation and to measure the sound change nothing but
/// the look, whether it is editing, and nothing at all.
pub proof fn law_small_events_change_little(
    state: RendererState,
    tuning: HudTuning,
    average: Scalar,
    peak: Scalar,
    now: Instant,
)
    ensures
        ({
            let configured = state.handled(DictationIndicatorEvent::Configure(tuning), now);
            let promoted = state.handled(DictationIndicatorEvent::PromotedToVoiceAction, now);
            let metered = state.handled(DictationIndicatorEvent::Meter { average, peak }, now);
            &&& RendererState { tuning: state.tuning, ..configured } == state
            &&& RendererState { editing: state.editing, ..promoted } == state
            &&& metered == state
        }),
{
}

/// Only a measurement asks for levels to be amplified, each level by its own gain.
pub proof fn law_levels_have_their_gains(event: DictationIndicatorEvent)
    ensures
        levels_of(event) is Some <==> event is Meter,
        event matches DictationIndicatorEvent::Meter { average, peak } ==> {
            let levels = levels_of(event).unwrap();
            &&& levels.average == average && levels.average_gain == AVERAGE_GAIN
            &&& levels.peak == peak && levels.peak_gain == PEAK_GAIN
        },
{
}

/// A new display is hidden at all times, with nothing captured, pending or announced, and has
/// the springs of a display that is about to appear.
pub proof fn law_new_displays_are_hidden(
    created: Instant,
    event: DictationIndicatorEvent,
    now: Instant,
)
    requires
        begins_recording(event),
    ensures
        ({
            let new = RendererState::initial(created);
            &&& !new.visible_at(now)
            &&& !new.capturing && !new.editing && !new.completion_pending
            &&& new.jobs.len() == 0
            &&& new.exiting
            &&& new.phase_started == created && new.render_started == created && new.last_frame
                == created
            &&& new.target_average == ZERO && new.target_peak == ZERO
            &&& new.scale == INITIAL_SCALE
            &&& new.tuning == HudTuning::standard()
            &&& new.springs == new.handled(event, now).springs
        }),
{
}

/// When the last job fails or is cancelled, the display shows that from that moment on: a
/// failure is on screen for exactly 600 milliseconds, however many frames are drawn, and a
/// cancellation leaves the screen at once.
pub proof fn law_last_jobs_show_how_they_ended(
    state: RendererState,
    job_id: u64,
    ended: Instant,
    frames: Seq<Frame>,
    now: Instant,
)
    requires
        state.wf(),
        state.jobs.contains_key(job_id),
        state.jobs.len() == 1,
        !state.capturing,
        ended.nanos <= now.nanos,
    ensures
        ({
            let failed = state.handled(DictationIndicatorEvent::JobFailed { job_id }, ended);
            let cancelled = state.handled(DictationIndicatorEvent::JobCancelled { job_id }, ended);
            &&& failed.phase == Phase::Failed && failed.phase_started == ended
            &&& cancelled.phase == Phase::Cancelled && cancelled.phase_started == ended
            &&& failed.after_frames(frames).frame_plan(now).visible <==> now.nanos - ended.nanos
                < 600 * 1_000_000
            &&& !cancelled.after_frames(frames).frame_plan(now).visible
            &&& failed.after_frames(frames).frame_plan(now).elapsed.nanos == now.nanos
                - ended.nanos
        }),
{
    let failed = state.handled(DictationIndicatorEvent::JobFailed { job_id }, ended);
    let cancelled = state.handled(DictationIndicatorEvent::JobCancelled { job_id }, ended);
    law_frames_keep_the_phase(failed, frames);
    law_frames_keep_the_phase(cancelled, frames);
}

/// When a recording fails or is cancelled with no job pending, the display shows that in the
/// same way, from that moment on.
pub proof fn law_recordings_show_how_they_ended(
    state: RendererState,
    ended: Instant,
    frames: Seq<Frame>,
    now: Instant,
)
    requires
        state.wf(),
        state.jobs.len() == 0,
        ended.nanos <= now.nanos,
    ensures
        ({
            let failed = state.handled(DictationIndicatorEvent::Failed, ended);
            let cancelled = state.handled(DictationIndicatorEvent::Cancelled, ended);
            let discarded = state.handled(DictationIndicatorEvent::Discarded, ended);
            &&& failed.after_frames(frames).frame_plan(now).visible <==> now.nanos - ended.nanos
                < 600 * 1_000_000
            &&& !cancelled.after_frames(frames).frame_plan(now).visible
            &&& !discarded.after_frames(frames).frame_plan(now).visible
        }),
{
    let failed = state.handled(DictationIndicatorEvent::Failed, ended);
    let cancelled = state.handled(DictationIndicatorEvent::Cancelled, ended);
    let discarded = state.handled(DictationIndicatorEvent::Discarded, ended);
    law_frames_keep_the_phase(failed, frames);
    law_frames_keep_the_phase(cancelled, frames);
    law_frames_keep_the_phase(discarded, frames);
}

/// An event is a start exactly if it makes a display capture sound that did not.
pub proof fn law_starts_capture_sound(
    state: RendererState,
    event: DictationIndicatorEvent,
    now: Instant,
)
    requires
        !state.capturing,
    ensures
        event.is_start() <==> state.handled(event, now).capturing,
{
}

/// An indicator takes every event. Without one, an indicator is made for the events that make
/// a display capture sound, and the others are lost.
pub proof fn law_indicators_are_made_for_recordings(
    event: DictationIndicatorEvent,
    created: Instant,
    now: Instant,
)
    ensures
        delivery_for(true, event) == Delivery::Deliver,
        delivery_for(false, event) == Delivery::Create <==> RendererState::initial(created).handled(
            event,
            now,
        ).capturing,
        delivery_for(false, event) != Delivery::Deliver,
{
}

/// Every event wakes a shared renderer and does to it what it does to a renderer of its own.
pub proof fn law_shared_renderers_take_events(
    state: SharedState,
    event: DictationIndicatorEvent,
    now: Instant,
)
    ensures
        state.handled(event, now).active,
        state.handled(event, now).renderer == state.renderer.handled(event, now),
{
}

} // verus!
