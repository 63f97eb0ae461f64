//! The state that the display is drawn from, and how events change it.
use crate::event::{DictationIndicatorEvent, HudTuning};
use crate::phase::{active_phase, phase_at_work, JobPhase, Phase};
use crate::scalar::{clamp, clamped, Scalar, ONE, ZERO};
use crate::spring::{Spring, Springs};
use crate::time::Instant;
use std::collections::BTreeMap;
use vstd::prelude::*;

verus! {

/// 56.0: the width of the capsule while it records.
pub const CAPSULE_WIDTH: Scalar = 0x4260_0000;

/// 16.0: the height of the capsule, and its width while it works on a job.
pub const CAPSULE_HEIGHT: Scalar = 0x4180_0000;

/// 0.82: the scale of the display when it is off screen.
pub const HIDDEN_SCALE: Scalar = 0x3f51_eb85;

/// 4.0: the softness of the display when it is off screen.
pub const HIDDEN_SOFTNESS: Scalar = 0x4080_0000;

/// 2.0: the pixels per point that the display starts with.
pub const INITIAL_SCALE: Scalar = 0x4000_0000;

/// 9.0: what the average level of a recording is multiplied by.
pub const AVERAGE_GAIN: Scalar = 0x4110_0000;

/// 3.0: what the peak level of a recording is multiplied by.
pub const PEAK_GAIN: Scalar = 0x4040_0000;

/// The levels of a recording, each with the gain that it is to be multiplied by.
#[derive(Clone, Copy, Debug, PartialEq, Eq, Structural)]
pub struct LevelRequest {
    pub average: Scalar,
    pub average_gain: Scalar,
    pub peak: Scalar,
    pub peak_gain: Scalar,
}

/// The state that the display is drawn from.
pub struct MetalRenderer {
    pub phase: Phase,
    pub capturing: bool,
    pub editing: bool,
    pub jobs: BTreeMap<u64, JobPhase>,
    pub phase_started: Instant,
    pub render_started: Instant,
    pub last_frame: Instant,
    pub exiting: bool,
    pub completion_pending: bool,
    pub scale: Scalar,
    pub target_average: Scalar,
    pub target_peak: Scalar,
    pub springs: Springs,
    pub tuning: HudTuning,
}

/// A `MetalRenderer` with its jobs as a mathematical map.
#[verifier::ext_equal]
pub struct RendererState {
    pub phase: Phase,
    pub capturing: bool,
    pub editing: bool,
    pub jobs: Map<u64, JobPhase>,
    pub phase_started: Instant,
    pub render_started: Instant,
    pub last_frame: Instant,
    pub exiting: bool,
    pub completion_pending: bool,
    pub scale: Scalar,
    pub target_average: Scalar,
    pub target_peak: Scalar,
    pub springs: Springs,
    pub tuning: HudTuning,
}

impl View for MetalRenderer {
    type V = RendererState;

    open spec fn view(&self) -> RendererState {
        RendererState {
            phase: self.phase,
            capturing: self.capturing,
            editing: self.editing,
            jobs: self.jobs@,
            phase_started: self.phase_started,
            render_started: self.render_started,
            last_frame: self.last_frame,
            exiting: self.exiting,
            completion_pending: self.completion_pending,
            scale: self.scale,
            target_average: self.target_average,
            target_peak: self.target_peak,
            springs: self.springs,
            tuning: self.tuning,
        }
    }
}

/// The springs of a display that is off screen and about to appear.
pub open spec fn springs_before_entrance() -> Springs {
    Springs {
        average: Spring::at_rest(ZERO),
        peak: Spring::at_rest(ZERO),
        width: Spring::at_rest(CAPSULE_WIDTH),
        height: Spring::at_rest(CAPSULE_HEIGHT),
        opacity: Spring::at_rest(ZERO),
        visual_scale: Spring::at_rest(HIDDEN_SCALE),
        softness: Spring::at_rest(HIDDEN_SOFTNESS),
        processing: Spring::at_rest(ZERO),
        post_processing: Spring::at_rest(ZERO),
    }
}

/// `springs` with everything but the appearance of the display stopped.
pub open spec fn springs_frozen(springs: Springs) -> Springs {
    Springs {
        average: springs.average.halted(),
        peak: springs.peak.halted(),
        width: springs.width.halted(),
        height: springs.height.halted(),
        processing: springs.processing.halted(),
        post_processing: springs.post_processing.halted(),
        ..springs
    }
}

impl RendererState {
    /// A display that was never shown.
    pub open spec fn initial(now: Instant) -> RendererState {
        RendererState {
            phase: Phase::Hidden,
            capturing: false,
            editing: false,
            jobs: Map::empty(),
            phase_started: now,
            render_started: now,
            last_frame: now,
            exiting: true,
            completion_pending: false,
            scale: INITIAL_SCALE,
            target_average: ZERO,
            target_peak: ZERO,
            springs: springs_before_entrance(),
            tuning: HudTuning::standard(),
        }
    }

    /// The phase that the work at hand asks for.
    pub open spec fn work(self) -> Option<Phase> {
        phase_at_work(self.capturing, self.jobs.len())
    }

    /// What holds of every display: it records exactly while sound is captured, it shows
    /// the work at hand, it shows work only while there is some or while it is about to
    /// announce that the last job is done, and it only announces that when nothing is left.
    pub open spec fn wf(self) -> bool {
        &&& self.jobs.dom().finite()
        &&& self.capturing <==> self.phase == Phase::Recording
        &&& self.work() matches Some(phase) ==> self.phase == phase
        &&& self.completion_pending ==> self.phase == Phase::Transcribing && self.work() is None
        &&& self.phase == Phase::Transcribing ==> self.completion_pending || self.work() is Some
    }

    /// The display held still, except for its appearance.
    pub open spec fn frozen(self) -> RendererState {
        RendererState {
            target_average: self.springs.average.value,
            target_peak: self.springs.peak.value,
            springs: springs_frozen(self.springs),
            ..self
        }
    }

    /// The display at `now`, showing the work at hand if there is any.
    pub open spec fn at_work(self, now: Instant) -> RendererState {
        match self.work() {
            None => self,
            Some(Phase::Recording) => RendererState { phase: Phase::Recording, ..self },
            Some(phase) => RendererState {
                phase,
                phase_started: now,
                completion_pending: false,
                target_average: ZERO,
                target_peak: ZERO,
                ..self
            },
        }
    }

    /// The display with nothing captured any more.
    pub open spec fn capture_ended(self) -> RendererState {
        RendererState { capturing: false, editing: false, ..self }
    }

    /// The display whose recording ended in `terminal`: it goes back to the pending jobs,
    /// or shows `terminal` where there are none.
    pub open spec fn recording_ended(self, terminal: Phase, now: Instant) -> RendererState {
        let still = RendererState {
            completion_pending: false,
            ..self.capture_ended()
        }.frozen();
        if self.jobs.is_empty() {
            RendererState { phase: terminal, ..still }
        } else {
            still.at_work(now)
        }
    }

    /// The display with the job `job_id` in `phase`, if that job is pending.
    pub open spec fn job_advanced(
        self,
        job_id: u64,
        phase: JobPhase,
        now: Instant,
    ) -> RendererState {
        if self.jobs.contains_key(job_id) {
            RendererState { jobs: self.jobs.insert(job_id, phase), ..self }.at_work(now)
        } else {
            self
        }
    }

    /// The display without the job `job_id`, which ended in `terminal`. Only the last piece
    /// of work is shown to end; a success waits for the capsule to take its final shape.
    pub open spec fn job_finished(
        self,
        job_id: u64,
        now: Instant,
        terminal: Phase,
    ) -> RendererState {
        let rest = RendererState { jobs: self.jobs.remove(job_id), ..self };
        if !self.jobs.contains_key(job_id) {
            self
        } else if rest.work() is Some {
            rest.at_work(now)
        } else if terminal == Phase::Completed {
            RendererState {
                phase: Phase::Transcribing,
                phase_started: now,
                completion_pending: true,
                ..rest
            }
        } else {
            RendererState {
                phase: terminal,
                phase_started: now,
                completion_pending: false,
                ..rest
            }.frozen()
        }
    }

    /// The display that starts to record.
    pub open spec fn recording_started(self, editing: bool, now: Instant) -> RendererState {
        RendererState {
            capturing: true,
            editing,
            phase: Phase::Recording,
            phase_started: now,
            render_started: now,
            last_frame: now,
            exiting: false,
            completion_pending: false,
            target_average: ZERO,
            target_peak: ZERO,
            springs: springs_before_entrance(),
            ..self
        }
    }

    /// The display after `event` at `now`.
    pub open spec fn handled(self, event: DictationIndicatorEvent, now: Instant) -> RendererState {
        match event {
            DictationIndicatorEvent::Reset => RendererState {
                jobs: Map::empty(),
                phase: Phase::Hidden,
                completion_pending: false,
                ..self.capture_ended()
            }.frozen(),
            DictationIndicatorEvent::Configure(tuning) => RendererState { tuning, ..self },
            DictationIndicatorEvent::Started => self.recording_started(false, now),
            DictationIndicatorEvent::EditingStarted => self.recording_started(true, now),
            DictationIndicatorEvent::PromotedToVoiceAction => RendererState {
                editing: true,
                ..self
            },
            DictationIndicatorEvent::Meter { .. } => self,
            DictationIndicatorEvent::Submitted { job_id } => RendererState {
                jobs: self.jobs.insert(job_id, JobPhase::Queued),
                ..self.capture_ended()
            }.at_work(now),
            DictationIndicatorEvent::Transcribing { job_id } => self.job_advanced(
                job_id,
                JobPhase::Transcribing,
                now,
            ),
            DictationIndicatorEvent::Processing { job_id } => self.job_advanced(
                job_id,
                JobPhase::Processing,
                now,
            ),
            DictationIndicatorEvent::Discarded => self.recording_ended(Phase::Hidden, now),
            DictationIndicatorEvent::Cancelled => RendererState {
                phase_started: now,
                ..self
            }.recording_ended(Phase::Cancelled, now),
            DictationIndicatorEvent::JobCompleted { job_id } => self.job_finished(
                job_id,
                now,
                Phase::Completed,
            ),
            DictationIndicatorEvent::JobCancelled { job_id } => self.job_finished(
                job_id,
                now,
                Phase::Cancelled,
            ),
            DictationIndicatorEvent::JobFailed { job_id } => self.job_finished(
                job_id,
                now,
                Phase::Failed,
            ),
            DictationIndicatorEvent::Failed => RendererState {
                phase_started: now,
                ..self
            }.recording_ended(Phase::Failed, now),
        }
    }

    /// The display whose levels move towards what amplification made of the measured ones.
    pub open spec fn levels_set(self, average: Scalar, peak: Scalar) -> RendererState {
        RendererState {
            target_average: clamped(average, ZERO, ONE),
            target_peak: clamped(peak, ZERO, ONE),
            ..self
        }
    }
}

/// What `event` asks to be amplified.
pub open spec fn levels_of(event: DictationIndicatorEvent) -> Option<LevelRequest> {
    match event {
        DictationIndicatorEvent::Meter { average, peak } => Some(
            LevelRequest { average, average_gain: AVERAGE_GAIN, peak, peak_gain: PEAK_GAIN },
        ),
        _ => None,
    }
}

impl MetalRenderer {
    /// Makes the state of a display that was never shown.
    pub fn new(now: Instant) -> (renderer: MetalRenderer)
        ensures
            renderer@ == RendererState::initial(now),
            renderer@.wf(),
    {
        MetalRenderer {
            phase: Phase::Hidden,
            capturing: false,
            editing: false,
            jobs: BTreeMap::new(),
            phase_started: now,
            render_started: now,
            last_frame: now,
            exiting: true,
            completion_pending: false,
            scale: INITIAL_SCALE,
            target_average: ZERO,
            target_peak: ZERO,
            springs: Springs {
                average: Spring::new(ZERO),
                peak: Spring::new(ZERO),
                width: Spring::new(CAPSULE_WIDTH),
                height: Spring::new(CAPSULE_HEIGHT),
                opacity: Spring::new(ZERO),
                visual_scale: Spring::new(HIDDEN_SCALE),
                softness: Spring::new(HIDDEN_SOFTNESS),
                processing: Spring::new(ZERO),
                post_processing: Spring::new(ZERO),
            },
            tuning: HudTuning::default(),
        }
    }

    /// Applies `event`. The levels of a metering event come back to be amplified; the
    /// products go to `set_levels`.
    pub fn handle(&mut self, event: DictationIndicatorEvent, now: Instant) -> (levels: Option<
        LevelRequest,
    >)
        ensures
            final(self)@ == old(self)@.handled(event, now),
            levels == levels_of(event),
            old(self)@.wf() ==> final(self)@.wf(),
    {
        let mut levels: Option<LevelRequest> = None;
        match event {
            DictationIndicatorEvent::Reset => {
                self.capturing = false;
                self.editing = false;
                self.jobs.clear();
                self.phase = Phase::Hidden;
                self.completion_pending = false;
                self.freeze_visual_state();
            },
            DictationIndicatorEvent::Configure(tuning) => {
                self.tuning = tuning;
            },
            DictationIndicatorEvent::Started => {
                self.start_recording(false, now);
            },
            DictationIndicatorEvent::EditingStarted => {
                self.start_recording(true, now);
            },
            DictationIndicatorEvent::PromotedToVoiceAction => {
                self.editing = true;
            },
            DictationIndicatorEvent::Meter { average, peak } => {
                levels = Some(
                    LevelRequest { average, average_gain: AVERAGE_GAIN, peak, peak_gain: PEAK_GAIN },
                );
            },
            DictationIndicatorEvent::Submitted { job_id } => {
                self.capturing = false;
                self.editing = false;
                self.jobs.insert(job_id, JobPhase::Queued);
                self.show_pipeline(now);
            },
            DictationIndicatorEvent::Transcribing { job_id } => {
                self.advance_job(job_id, JobPhase::Transcribing, now);
            },
            DictationIndicatorEvent::Processing { job_id } => {
                self.advance_job(job_id, JobPhase::Processing, now);
            },
            DictationIndicatorEvent::Discarded => {
                self.end_recording(Phase::Hidden, now);
            },
            DictationIndicatorEvent::Cancelled => {
                self.phase_started = now;
                self.end_recording(Phase::Cancelled, now);
            },
            DictationIndicatorEvent::JobCompleted { job_id } => {
                self.finish_job(job_id, now, Phase::Completed);
            },
            DictationIndicatorEvent::JobCancelled { job_id } => {
                self.finish_job(job_id, now, Phase::Cancelled);
            },
            DictationIndicatorEvent::JobFailed { job_id } => {
                self.finish_job(job_id, now, Phase::Failed);
            },
            DictationIndicatorEvent::Failed => {
                self.phase_started = now;
                self.end_recording(Phase::Failed, now);
            },
        }
        levels
    }

    /// Lets the levels move towards the amplified ones.
    pub fn set_levels(&mut self, average: Scalar, peak: Scalar)
        ensures
            final(self)@ == old(self)@.levels_set(average, peak),
            old(self)@.wf() ==> final(self)@.wf(),
    {
        self.target_average = clamp(average, ZERO, ONE);
        self.target_peak = clamp(peak, ZERO, ONE);
    }

    /// Starts to record, from the very beginning.
    fn start_recording(&mut self, editing: bool, now: Instant)
        ensures
            final(self)@ == old(self)@.recording_started(editing, now),
    {
        self.capturing = true;
        self.editing = editing;
        self.phase = Phase::Recording;
        self.phase_started = now;
        self.render_started = now;
        self.last_frame = now;
        self.exiting = false;
        self.completion_pending = false;
        self.target_average = ZERO;
        self.target_peak = ZERO;
        self.springs.average.reset(ZERO);
        self.springs.peak.reset(ZERO);
        self.springs.width.reset(CAPSULE_WIDTH);
        self.springs.height.reset(CAPSULE_HEIGHT);
        self.springs.opacity.reset(ZERO);
        self.springs.visual_scale.reset(HIDDEN_SCALE);
        self.springs.softness.reset(HIDDEN_SOFTNESS);
        self.springs.processing.reset(ZERO);
        self.springs.post_processing.reset(ZERO);
    }

    /// Ends a recording and goes back to the pending jobs, or shows `terminal`.
    fn end_recording(&mut self, terminal: Phase, now: Instant)
        ensures
            final(self)@ == old(self)@.recording_ended(terminal, now),
    {
        self.capturing = false;
        self.editing = false;
        self.completion_pending = false;
        self.freeze_visual_state();
        if self.jobs.is_empty() {
            self.phase = terminal;
        } else {
            self.show_pipeline(now);
        }
    }

    /// Moves the job `job_id` on to `phase`, if it is pending.
    fn advance_job(&mut self, job_id: u64, phase: JobPhase, now: Instant)
        ensures
            final(self)@ == old(self)@.job_advanced(job_id, phase, now),
    {
        if self.jobs.contains_key(&job_id) {
            self.jobs.insert(job_id, phase);
            self.show_pipeline(now);
        }
    }

    /// Shows the work at hand, if there is any.
    fn show_pipeline(&mut self, now: Instant)
        ensures
            final(self)@ == old(self)@.at_work(now),
    {
        let phase = match active_phase(self.capturing, self.jobs.len()) {
            Some(phase) => phase,
            None => {
                return ;
            },
        };
        self.phase = phase;
        if phase == Phase::Recording {
            return ;
        }
        self.phase_started = now;
        self.completion_pending = false;
        self.target_average = ZERO;
        self.target_peak = ZERO;
    }

    /// Takes the job `job_id` off the pending ones and shows `terminal` once all work is done.
    fn finish_job(&mut self, job_id: u64, now: Instant, terminal: Phase)
        ensures
            final(self)@ == old(self)@.job_finished(job_id, now, terminal),
    {
        if self.jobs.remove(&job_id).is_none() {
            assert(old(self)@ =~= self@);
            return ;
        }
        if active_phase(self.capturing, self.jobs.len()).is_some() {
            self.show_pipeline(now);
            return ;
        }
        if terminal == Phase::Completed {
            self.phase = Phase::Transcribing;
            self.phase_started = now;
            self.completion_pending = true;
        } else {
            self.phase = terminal;
            self.phase_started = now;
            self.completion_pending = false;
            self.freeze_visual_state();
        }
    }

    /// Holds everything but the appearance of the display still.
    pub(crate) fn freeze_visual_state(&mut self)
        ensures
            final(self)@ == old(self)@.frozen(),
    {
        self.target_average = self.springs.average.value;
        self.target_peak = self.springs.peak.value;
        self.springs.average.halt();
        self.springs.peak.halt();
        self.springs.width.halt();
        self.springs.height.halt();
        self.springs.processing.halt();
        self.springs.post_processing.halt();
    }
}

} // verus!
