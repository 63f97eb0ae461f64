//! The display as the application sees it: made ahead of time, and made again when a
//! recording starts without one.
use crate::event::DictationIndicatorEvent;
use vstd::prelude::*;

verus! {

/// What becomes of an event.
#[derive(Clone, Copy, Debug, PartialEq, Eq, Structural)]
pub enum Delivery {
    /// An indicator has to be made first; what came of that goes to `install`.
    Create,
    /// The indicator takes the event.
    Deliver,
    /// Nobody takes the event.
    Drop,
}

/// The indicator, unless making it failed.
pub struct DictationIndicatorUi<I> {
    pub indicator: Option<I>,
}

/// What becomes of `event` for an application that has an indicator, or has none.
pub open spec fn delivery_for(has_indicator: bool, event: DictationIndicatorEvent) -> Delivery {
    if has_indicator {
        Delivery::Deliver
    } else if event.is_start() {
        Delivery::Create
    } else {
        Delivery::Drop
    }
}

impl<I> DictationIndicatorUi<I> {
    /// Starts with what came of making an indicator ahead of time.
    pub fn new(created: Option<I>) -> (ui: DictationIndicatorUi<I>)
        ensures
            ui.indicator == created,
    {
        DictationIndicatorUi { indicator: created }
    }

    /// Decides what becomes of `event`: a start is worth another try at making an indicator.
    pub fn handle(&self, event: &DictationIndicatorEvent) -> (delivery: Delivery)
        ensures
            delivery == delivery_for(self.indicator is Some, *event),
            delivery == Delivery::Deliver <==> self.indicator is Some,
            delivery == Delivery::Create <==> self.indicator is None && event.is_start(),
            delivery == Delivery::Drop <==> self.indicator is None && !event.is_start(),
    {
        if self.indicator.is_some() {
            Delivery::Deliver
        } else if event.starts_recording() {
            Delivery::Create
        } else {
            Delivery::Drop
        }
    }

    /// Takes over what came of making an indicator for an event, and decides what becomes
    /// of the event.
    pub fn install(&mut self, created: Option<I>) -> (delivery: Delivery)
        requires
            old(self).indicator is None,
        ensures
            final(self).indicator == created,
            delivery == (if created is Some {
                Delivery::Deliver
            } else {
                Delivery::Drop
            }),
    {
        let delivery = if created.is_some() {
            Delivery::Deliver
        } else {
            Delivery::Drop
        };
        self.indicator = created;
        delivery
    }

    /// Decides whether there is an indicator to look after.
    pub fn follow_pointer(&self) -> (r: bool)
        ensures
            r == self.indicator is Some,
    {
        self.indicator.is_some()
    }
}

} // verus!
