use dictation_indicator::event::DictationIndicatorEvent;
use dictation_indicator::ui::{Delivery, DictationIndicatorUi};

#[test]
fn events_reach_the_indicator() {
    let ui = DictationIndicatorUi::new(Some(1_u8));
    assert_eq!(ui.handle(&DictationIndicatorEvent::Reset), Delivery::Deliver);
    assert_eq!(ui.handle(&DictationIndicatorEvent::Started), Delivery::Deliver);
    assert!(ui.follow_pointer());
}

#[test]
fn a_start_is_worth_another_try() {
    let mut ui = DictationIndicatorUi::new(None);
    assert!(!ui.follow_pointer());
    assert_eq!(ui.handle(&DictationIndicatorEvent::Discarded), Delivery::Drop);
    assert_eq!(ui.handle(&DictationIndicatorEvent::EditingStarted), Delivery::Create);
    assert_eq!(ui.install(None), Delivery::Drop);
    assert_eq!(ui.handle(&DictationIndicatorEvent::Started), Delivery::Create);
    assert_eq!(ui.install(Some(2_u8)), Delivery::Deliver);
    assert_eq!(ui.indicator, Some(2));
}
