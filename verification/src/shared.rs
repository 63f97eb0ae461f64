//! The renderer as the display link and the main thread share it: it draws while it has
//! something to show, and rests until the next event otherwise.
use crate::event::DictationIndicatorEvent;
use crate::frame::{ExitDistances, FramePlan};
use crate::renderer::{levels_of, LevelRequest, MetalRenderer, RendererState};
use crate::time::Instant;
use vstd::prelude::*;

verus! {

/// A renderer, and whether it has anything to draw.
pub struct SharedRenderer {
    pub renderer: MetalRenderer,
    pub active: bool,
}

/// A `SharedRenderer` with its renderer as a mathematical value.
#[verifier::ext_equal]
pub struct SharedState {
    pub renderer: RendererState,
    pub active: bool,
}

impl View for SharedRenderer {
    type V = SharedState;

    open spec fn view(&self) -> SharedState {
        SharedState { renderer: self.renderer@, active: self.active }
    }
}

impl SharedState {
    /// The renderer after `event` at `now`: every event wakes it.
    pub open spec fn handled(self, event: DictationIndicatorEvent, now: Instant) -> SharedState {
        SharedState { renderer: self.renderer.handled(event, now), active: true }
    }

    /// The renderer at the start of a frame at `now`: at rest it stays as it is.
    pub open spec fn draw_begun(self, now: Instant) -> SharedState {
        if self.active {
            SharedState { renderer: self.renderer.frame_begun(now), ..self }
        } else {
            self
        }
    }

    /// The renderer after a frame was presented: it goes to rest once the display is off
    /// screen and has faded out.
    pub open spec fn draw_finished(
        self,
        plan: FramePlan,
        distances: ExitDistances,
    ) -> SharedState {
        SharedState {
            active: self.active && (self.renderer.visible_at(plan.now) || !self.renderer.gone(
                distances,
            )),
            ..self
        }
    }
}

impl SharedRenderer {
    /// Makes a renderer at rest.
    pub fn new(now: Instant) -> (shared: SharedRenderer)
        ensures
            shared@ == (SharedState { renderer: RendererState::initial(now), active: false }),
            shared@.renderer.wf(),
    {
        SharedRenderer { renderer: MetalRenderer::new(now), active: false }
    }

    /// Applies `event` and wakes the renderer. Levels to be amplified come back as from the
    /// renderer itself.
    pub fn handle(&mut self, event: DictationIndicatorEvent, now: Instant) -> (levels: Option<
        LevelRequest,
    >)
        ensures
            final(self)@ == old(self)@.handled(event, now),
            levels == levels_of(event),
            old(self)@.renderer.wf() ==> final(self)@.renderer.wf(),
    {
        let levels = self.renderer.handle(event, now);
        self.active = true;
        levels
    }

    /// Starts a frame, unless the renderer is at rest. Once the frame is presented, it ends
    /// with `finish_draw`; a frame that found no surface to draw on just ends.
    pub fn begin_draw(&mut self, now: Instant) -> (plan: Option<FramePlan>)
        ensures
            final(self)@ == old(self)@.draw_begun(now),
            plan == (if old(self).active {
                Some(old(self)@.renderer.frame_plan(now))
            } else {
                None
            }),
            old(self)@.renderer.wf() ==> final(self)@.renderer.wf(),
    {
        if !self.active {
            return None;
        }
        Some(self.renderer.begin_frame(now))
    }

    /// Ends a frame that was presented.
    pub fn finish_draw(&mut self, plan: &FramePlan, distances: &ExitDistances)
        ensures
            final(self)@ == old(self)@.draw_finished(*plan, *distances),
            old(self)@.renderer.wf() ==> final(self)@.renderer.wf(),
    {
        if !self.renderer.keeps_drawing(plan, distances) {
            self.active = false;
        }
    }

    /// Tells whether the renderer has anything to draw.
    pub fn is_active(&self) -> (r: bool)
        ensures
            r == self.active,
    {
        self.active
    }
}

} // verus!
