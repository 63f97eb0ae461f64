use dictation_indicator::phase::{active_phase, Phase};
use dictation_indicator::time::Duration;

#[test]
fn completion_has_a_visible_bloom_before_exit() {
    assert_eq!(
        Phase::Completed.visible_duration(),
        Some(Duration::from_millis(240))
    );
}

#[test]
fn pending_completion_cannot_replace_a_new_recording_phase() {
    assert_eq!(active_phase(true, 0), Some(Phase::Recording));
    assert_eq!(active_phase(true, 2), Some(Phase::Recording));
    assert_eq!(active_phase(false, 2), Some(Phase::Transcribing));
    assert_eq!(active_phase(false, 0), None);
}
