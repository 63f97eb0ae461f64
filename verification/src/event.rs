//! What the dictation pipeline tells the display.
use crate::scalar::{Scalar, ONE};
use vstd::prelude::*;

verus! {

/// The look of the display, as the shader takes it.
#[derive(Clone, Copy, Debug, PartialEq, Eq, Structural)]
pub struct HudTuning {
    pub style: Scalar,
    pub line_count: Scalar,
    pub curvature: Scalar,
    pub speed: Scalar,
    pub sharpness: Scalar,
    pub glow: Scalar,
    pub depth: Scalar,
    pub light_angle: Scalar,
    pub outline: Scalar,
}

impl HudTuning {
    /// The look that the display starts with: style 1.0, 2.0 lines, curvature 0.47,
    /// speed 17.08, sharpness 0.29, glow 0.77, depth 0.65, light angle 0.35, outline 1.0.
    pub open spec fn standard() -> HudTuning {
        HudTuning {
            style: ONE,
            line_count: 0x4000_0000,
            curvature: 0x3ef0_a3d7,
            speed: 0x4188_a3d7,
            sharpness: 0x3e94_7ae1,
            glow: 0x3f45_1eb8,
            depth: 0x3f26_6666,
            light_angle: 0x3eb3_3333,
            outline: ONE,
        }
    }
}

impl Default for HudTuning {
    fn default() -> (tuning: HudTuning)
        ensures
            tuning == HudTuning::standard(),
    {
        HudTuning {
            style: ONE,
            line_count: 0x4000_0000,
            curvature: 0x3ef0_a3d7,
            speed: 0x4188_a3d7,
            sharpness: 0x3e94_7ae1,
            glow: 0x3f45_1eb8,
            depth: 0x3f26_6666,
            light_angle: 0x3eb3_3333,
            outline: ONE,
        }
    }
}

/// What the dictation pipeline tells the display.
#[derive(Clone, Copy, Debug, PartialEq, Eq, Structural)]
pub enum DictationIndicatorEvent {
    Reset,
    Configure(HudTuning),
    Started,
    EditingStarted,
    PromotedToVoiceAction,
    Meter { average: Scalar, peak: Scalar },
    Submitted { job_id: u64 },
    Transcribing { job_id: u64 },
    Processing { job_id: u64 },
    Discarded,
    Cancelled,
    JobCompleted { job_id: u64 },
    JobCancelled { job_id: u64 },
    JobFailed { job_id: u64 },
    Failed,
}

impl DictationIndicatorEvent {
    /// Whether the event begins a recording, by dictation or by voice editing.
    pub open spec fn is_start(self) -> bool {
        self is Started || self is EditingStarted
    }

    /// Decides whether the event begins a recording.
    pub fn starts_recording(&self) -> (r: bool)
        ensures
            r == self.is_start(),
    {
        match self {
            DictationIndicatorEvent::Started | DictationIndicatorEvent::EditingStarted => true,
            _ => false,
        }
    }
}

} // verus!
