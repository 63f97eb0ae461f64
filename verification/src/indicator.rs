//! What the window of the display knows of itself.
use crate::screen::{
    choose_screen, is_out_of_place, is_screen_for, label, out_of_place, screen_label, Placement,
    Point, Screen,
};
use crate::upkeep::Upkeep;
use vstd::prelude::*;

verus! {

/// The window of the display: how it is kept alive, and the screen that it was last put on.
pub struct MetalIndicator {
    pub upkeep: Upkeep,
    pub screen_label: Option<String>,
}

/// Whether a window that was last on the screen called `before` goes where `placement` says
/// for a pointer at `pointer`, and is then remembered to be on the one called `after`.
pub open spec fn is_placing(
    before: Option<Seq<char>>,
    pointer: Point,
    screens: Seq<Screen>,
    placement: Option<Placement>,
    after: Option<Seq<char>>,
) -> bool {
    match placement {
        None => screens.len() == 0 && after == before,
        Some(p) => {
            let screen = screens[p.screen as int];
            let called = label(screen.name@, p.screen as nat);
            &&& is_screen_for(screens, pointer, p.screen as int)
            &&& p.move_window == is_out_of_place(screen.drift)
            &&& p.report == (before != Some(called))
            &&& after == Some(called)
        },
    }
}

impl MetalIndicator {
    /// How the last screen is called.
    pub open spec fn last_screen(self) -> Option<Seq<char>> {
        match self.screen_label {
            Some(label) => Some(label@),
            None => None,
        }
    }

    /// Starts with a window that was just made and never placed.
    pub fn new() -> (indicator: MetalIndicator)
        ensures
            indicator.upkeep == Upkeep::initial(),
            indicator.last_screen() is None,
    {
        MetalIndicator { upkeep: Upkeep::new(), screen_label: None }
    }

    /// Decides where the window goes for a pointer at `pointer`. Without a screen it stays
    /// where it is.
    pub fn position_on_pointer_screen(
        &mut self,
        pointer: &Point,
        screens: &Vec<Screen>,
    ) -> (placement: Option<Placement>)
        ensures
            final(self).upkeep == old(self).upkeep,
            is_placing(
                old(self).last_screen(),
                *pointer,
                screens@,
                placement,
                final(self).last_screen(),
            ),
            placement is None <==> screens@.len() == 0,
            placement is None ==> *final(self) == *old(self),
            placement matches Some(p) ==> {
                let screen = screens@[p.screen as int];
                let called = label(screen.name@, p.screen as nat);
                &&& is_screen_for(screens@, *pointer, p.screen as int)
                &&& p.move_window == is_out_of_place(screen.drift)
                &&& p.report == (old(self).last_screen() != Some(called))
                &&& final(self).last_screen() == Some(called)
            },
    {
        let index: usize = match choose_screen(pointer, screens) {
            Some(index) => index,
            None => {
                return None;
            },
        };
        let screen = &screens[index];
        let called = screen_label(screen.name.as_str(), index);
        let report = match &self.screen_label {
            Some(last) => !(*last == called),
            None => true,
        };
        if report {
            self.screen_label = Some(called);
        }
        Some(Placement { screen: index, report, move_window: out_of_place(&screen.drift) })
    }
}

} // verus!
