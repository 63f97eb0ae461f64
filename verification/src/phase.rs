//! What the display shows, and for how long.
use crate::time::Duration;
use vstd::prelude::*;

verus! {

/// How long a finished job stays on screen, in milliseconds.
pub const COMPLETED_MILLIS: u64 = 240;

/// How long a failure stays on screen, in milliseconds.
pub const FAILED_MILLIS: u64 = 600;

/// What the display shows.
#[derive(Clone, Copy, Debug, PartialEq, Eq, Structural)]
pub enum Phase {
    Hidden,
    Recording,
    Transcribing,
    Completed,
    Cancelled,
    Failed,
}

/// How far a submitted job has come.
#[derive(Clone, Copy, Debug, PartialEq, Eq, Structural)]
pub enum JobPhase {
    Queued,
    Transcribing,
    Processing,
}

impl Phase {
    /// How long the phase stays on screen by itself; the others stay until they are left.
    pub open spec fn shown_for(self) -> Option<Duration> {
        match self {
            Phase::Completed => Some(Duration::of_millis(COMPLETED_MILLIS)),
            Phase::Cancelled => Some(Duration::of_millis(0)),
            Phase::Failed => Some(Duration::of_millis(FAILED_MILLIS)),
            Phase::Hidden | Phase::Recording | Phase::Transcribing => None,
        }
    }

    /// Whether the display is on screen once the phase has lasted for `elapsed`.
    pub open spec fn is_visible(self, elapsed: Duration) -> bool {
        self != Phase::Hidden && (self.shown_for() matches Some(span) ==> elapsed.nanos
            < span.nanos)
    }

    /// The time after which the phase leaves the screen by itself.
    pub fn visible_duration(self) -> (span: Option<Duration>)
        ensures
            span == self.shown_for(),
    {
        match self {
            Phase::Completed => Some(Duration::from_millis(COMPLETED_MILLIS)),
            Phase::Cancelled => Some(Duration::from_millis(0)),
            Phase::Failed => Some(Duration::from_millis(FAILED_MILLIS)),
            Phase::Hidden | Phase::Recording | Phase::Transcribing => None,
        }
    }

    /// Decides whether the display is on screen once the phase has lasted for `elapsed`.
    pub fn visible(self, elapsed: Duration) -> (r: bool)
        ensures
            r == self.is_visible(elapsed),
    {
        let terminal_finished = match self.visible_duration() {
            Some(span) => elapsed.nanos >= span.nanos,
            None => false,
        };
        self != Phase::Hidden && !terminal_finished
    }
}

/// The phase of a display with work at hand: recording goes before pending jobs.
pub open spec fn phase_at_work(capturing: bool, pending_jobs: nat) -> Option<Phase> {
    if capturing {
        Some(Phase::Recording)
    } else if pending_jobs > 0 {
        Some(Phase::Transcribing)
    } else {
        None
    }
}

/// Picks the phase of a display with work at hand.
pub fn active_phase(capturing: bool, pending_jobs: usize) -> (phase: Option<Phase>)
    ensures
        phase == phase_at_work(capturing, pending_jobs as nat),
{
    if capturing {
        Some(Phase::Recording)
    } else if pending_jobs > 0 {
        Some(Phase::Transcribing)
    } else {
        None
    }
}

/// The age of the flash that opens a dictation; editing by voice opens without one.
pub open spec fn flash_age(phase: Phase, editing: bool, elapsed: Duration) -> Option<Duration> {
    if phase == Phase::Recording && !editing {
        Some(elapsed)
    } else {
        None
    }
}

/// Decides whether the recording flash shows, and how far it has decayed.
pub fn recording_flash_for(phase: Phase, editing: bool, elapsed: Duration) -> (age: Option<
    Duration,
>)
    ensures
        age == flash_age(phase, editing, elapsed),
{
    if phase == Phase::Recording && !editing {
        Some(elapsed)
    } else {
        None
    }
}

} // verus!
