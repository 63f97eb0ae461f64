//! How the window and the display link of the display are kept alive.
//!
//! The window system, the display link and the renderer are not called from here. Each of
//! three routines asks for one thing after another: a `begin_` function gives the first
//! request, and `resume` gives the next one for the reply to the last, until it is `Done`.
use crate::event::DictationIndicatorEvent;
use crate::time::{Duration, Instant};
use vstd::prelude::*;

verus! {

/// How long an attempt to order the window front is trusted before the window server alone
/// decides whether it is on screen, in milliseconds.
pub const ORDERING_GRACE_MILLIS: u64 = 250;

/// The least time between two attempts to bring the display link up, in milliseconds.
pub const DISPLAY_LINK_RETRY_INTERVAL_MILLIS: u64 = 1_000;

/// The least time between two looks at secure input, in milliseconds.
pub const SECURE_INPUT_POLL_INTERVAL_MILLIS: u64 = 1_000;

/// Something worth a line in the log.
#[derive(Clone, Copy, Debug, PartialEq, Eq, Structural)]
pub enum Notice {
    SecureInputEngaged,
    SecureInputReleased,
    /// The window was not on screen and was ordered front.
    NotVisible,
    /// The window was not visible right after it was ordered front, and was ordered again.
    OrderedAgain,
    /// The display was shown.
    Shown,
    /// The display link cannot be had; frames are drawn from the upkeep.
    LinkUnavailable { status: i32 },
    LinkRecovered,
}

/// What a routine asks for.
#[derive(Clone, Copy, Debug, PartialEq, Eq, Structural)]
pub enum Request {
    /// Is secure input engaged?
    ReadSecureInput,
    /// Has the renderer anything to draw?
    ReadActivity,
    /// Put the window on the screen with the pointer.
    Place,
    /// Is the window visible, and not covered?
    ReadWindow,
    OrderFront,
    OrderOut,
    /// Is the display link running?
    ReadLinkRunning,
    CreateLink,
    StartLink,
    StopLink,
    /// Draw a frame.
    Draw,
    Report(Notice),
    /// The routine has ended.
    Done,
}

/// What came of a request.
#[derive(Clone, Copy, Debug, PartialEq, Eq, Structural)]
pub enum Reply {
    /// It was carried out.
    Done,
    /// The answer to a question.
    Answer(bool),
    /// What the window server says of the window.
    Window { visible: bool, unoccluded: bool },
    /// The display link could not be created or started.
    Refused { status: i32 },
}

impl Reply {
    /// Whether the reply says yes.
    pub open spec fn is_yes(self) -> bool {
        self matches Reply::Answer(yes) && yes
    }

    /// Whether the reply says that the window is visible.
    pub open spec fn is_visible(self) -> bool {
        self matches Reply::Window { visible, .. } && visible
    }

    /// Whether the reply says that the window is visible and that some of it can be seen.
    pub open spec fn is_on_screen(self) -> bool {
        self matches Reply::Window { visible, unoccluded } && visible && unoccluded
    }

    /// Decides whether the reply says yes.
    fn yes(&self) -> (r: bool)
        ensures
            r == self.is_yes(),
    {
        match self {
            Reply::Answer(yes) => *yes,
            _ => false,
        }
    }

    /// Decides whether the reply says that the window is visible.
    fn visible(&self) -> (r: bool)
        ensures
            r == self.is_visible(),
    {
        match self {
            Reply::Window { visible, .. } => *visible,
            _ => false,
        }
    }

    /// Decides whether the reply says that some of the window can be seen.
    fn visible_on_screen(&self) -> (r: bool)
        ensures
            r == self.is_on_screen(),
    {
        match self {
            Reply::Window { visible, unoccluded } => *visible && *unoccluded,
            _ => false,
        }
    }
}

/// The routines.
#[derive(Clone, Copy, Debug, PartialEq, Eq, Structural)]
pub enum Routine {
    /// Brings a new display up, unseen.
    Create,
    /// Brings the display to the front when a recording starts.
    Show,
    /// Looks after the display, several times a second.
    Maintain,
}

/// What the running routine waits for.
#[derive(Clone, Copy, Debug, PartialEq, Eq, Structural)]
pub enum Stage {
    /// No routine is running.
    Idle,
    SecureInputRead,
    SecureInputReported,
    ActivityRead,
    Placed,
    WindowRead,
    OrderedFront,
    OrderingReported,
    LinkRead,
    LinkCreated,
    LinkStarted,
    LinkReported,
    TickLinkRead,
    Drawn,
    RestLinkRead,
    RestLinkStopped,
    OrderedOut,
    ShowOrdered,
    ShowWindowRead,
    ShowOrderedAgain,
    ShowOrderedAgainReported,
    ShownReported,
}

/// What is known of the window and the display link, and where the running routine is.
#[derive(Clone, Copy, Debug, PartialEq, Eq, Structural)]
pub struct Upkeep {
    pub linked: bool,
    pub display_link_retry_at: Option<Instant>,
    pub ordered: bool,
    pub ordered_at: Option<Instant>,
    pub ordering_retry_logged: bool,
    pub degraded_logged: bool,
    pub secure_input_enabled: bool,
    pub secure_input_checked_at: Option<Instant>,
    pub routine: Routine,
    pub stage: Stage,
}

/// Where a routine is after a request.
pub struct Move {
    pub upkeep: Upkeep,
    pub request: Request,
}

impl Upkeep {
    /// What is known of a window that was just made.
    pub open spec fn initial() -> Upkeep {
        Upkeep {
            linked: false,
            display_link_retry_at: None,
            ordered: false,
            ordered_at: None,
            ordering_retry_logged: false,
            degraded_logged: false,
            secure_input_enabled: false,
            secure_input_checked_at: None,
            routine: Routine::Create,
            stage: Stage::Idle,
        }
    }

    /// Makes `request` and waits at `stage`.
    pub open spec fn asks(self, stage: Stage, request: Request) -> Move {
        Move { upkeep: Upkeep { stage, ..self }, request }
    }

    /// Whether secure input was looked at too recently to look again.
    pub open spec fn secure_input_polled(self, now: Instant) -> bool {
        self.secure_input_checked_at matches Some(checked_at) && now.since(checked_at).nanos
            < Duration::of_millis(SECURE_INPUT_POLL_INTERVAL_MILLIS).nanos
    }

    /// Whether the window was ordered front so recently that it may still come up.
    pub open spec fn ordering_trusted(self, now: Instant) -> bool {
        self.ordered_at matches Some(ordered_at) && now.since(ordered_at).nanos
            < Duration::of_millis(ORDERING_GRACE_MILLIS).nanos
    }

    /// Whether the last attempt at the display link was too recent for another.
    pub open spec fn link_retry_pending(self, now: Instant) -> bool {
        self.display_link_retry_at matches Some(retry_at) && now.nanos < retry_at.nanos
    }

    /// Looks at secure input, unless that was done a moment ago.
    pub open spec fn watches_secure_input(self, now: Instant) -> Move {
        if self.secure_input_polled(now) {
            self.asks(Stage::ActivityRead, Request::ReadActivity)
        } else {
            Upkeep { secure_input_checked_at: Some(now), ..self }.asks(
                Stage::SecureInputRead,
                Request::ReadSecureInput,
            )
        }
    }

    /// Reports a change of secure input.
    pub open spec fn notes_secure_input(self, enabled: bool) -> Move {
        if enabled == self.secure_input_enabled {
            self.asks(Stage::ActivityRead, Request::ReadActivity)
        } else {
            Upkeep { secure_input_enabled: enabled, ..self }.asks(
                Stage::SecureInputReported,
                Request::Report(
                    if enabled {
                        Notice::SecureInputEngaged
                    } else {
                        Notice::SecureInputReleased
                    },
                ),
            )
        }
    }

    /// Looks after the window and the link of an active display; puts them to rest otherwise.
    pub open spec fn attends(self, active: bool) -> Move {
        if active {
            self.asks(Stage::Placed, Request::Place)
        } else if self.linked {
            self.asks(Stage::RestLinkRead, Request::ReadLinkRunning)
        } else {
            self.rests()
        }
    }

    /// Takes the window off the screen and forgets reported failures. When the display link
    /// was last tried is remembered, so that waking and resting does not hasten the next try.
    #[verifier::opaque]
    pub open spec fn rests(self) -> Move {
        let fresh = Upkeep { ordered: false, degraded_logged: false, ..self };
        if self.ordered {
            fresh.asks(Stage::OrderedOut, Request::OrderOut)
        } else {
            fresh.asks(Stage::Idle, Request::Done)
        }
    }

    /// Goes on once the window is in place.
    pub open spec fn placed(self) -> Move {
        match self.routine {
            Routine::Create => self.asks(Stage::Idle, Request::Done),
            Routine::Show => self.asks(Stage::ShowOrdered, Request::OrderFront),
            Routine::Maintain => self.asks(Stage::WindowRead, Request::ReadWindow),
        }
    }

    /// Orders the window front if the window server dropped it.
    pub open spec fn ensures_ordered(self, on_screen: bool, now: Instant) -> Move {
        if on_screen {
            Upkeep { ordering_retry_logged: false, ..self }.ensures_link(now)
        } else if self.ordering_trusted(now) {
            self.ensures_link(now)
        } else {
            self.asks(Stage::OrderedFront, Request::OrderFront)
        }
    }

    /// What is known once the window was ordered front.
    pub open spec fn ordered_front(self, now: Instant) -> Upkeep {
        Upkeep { ordered: true, ordered_at: Some(now), ..self }
    }

    /// Reports the first of a row of attempts to order the window front.
    pub open spec fn notes_ordering(self, now: Instant) -> Move {
        let ordered = self.ordered_front(now);
        if self.ordering_retry_logged {
            ordered.ensures_link(now)
        } else {
            Upkeep { ordering_retry_logged: true, ..ordered }.asks(
                Stage::OrderingReported,
                Request::Report(Notice::NotVisible),
            )
        }
    }

    /// Brings the display link up if it is not running.
    #[verifier::opaque]
    pub open spec fn ensures_link(self, now: Instant) -> Move {
        if self.linked {
            self.asks(Stage::LinkRead, Request::ReadLinkRunning)
        } else {
            self.retries_link(now)
        }
    }

    /// Tries to bring the display link up, unless that was tried a moment ago.
    #[verifier::opaque]
    pub open spec fn retries_link(self, now: Instant) -> Move {
        let tried = Upkeep {
            display_link_retry_at: Some(
                now.advanced(Duration::of_millis(DISPLAY_LINK_RETRY_INTERVAL_MILLIS)),
            ),
            ..self
        };
        if self.link_retry_pending(now) {
            self.link_attended()
        } else if self.linked {
            tried.asks(Stage::LinkStarted, Request::StartLink)
        } else {
            tried.asks(Stage::LinkCreated, Request::CreateLink)
        }
    }

    /// Goes on once there is a display link or an error.
    pub open spec fn link_created(self, reply: Reply) -> Move {
        match reply {
            Reply::Refused { status } => self.degrades(status),
            _ => Upkeep { linked: true, ..self }.asks(Stage::LinkStarted, Request::StartLink),
        }
    }

    /// Goes on once the display link runs or an error came.
    pub open spec fn link_started(self, reply: Reply) -> Move {
        match reply {
            Reply::Refused { status } => self.degrades(status),
            _ => if self.degraded_logged {
                Upkeep { degraded_logged: false, ..self }.asks(
                    Stage::LinkReported,
                    Request::Report(Notice::LinkRecovered),
                )
            } else {
                self.link_attended()
            },
        }
    }

    /// Reports the first of a row of failures of the display link.
    pub open spec fn degrades(self, status: i32) -> Move {
        if self.degraded_logged {
            self.link_attended()
        } else {
            Upkeep { degraded_logged: true, ..self }.asks(
                Stage::LinkReported,
                Request::Report(Notice::LinkUnavailable { status }),
            )
        }
    }

    /// Goes on once all was done for the display link.
    #[verifier::opaque]
    pub open spec fn link_attended(self) -> Move {
        if self.routine != Routine::Maintain {
            self.asks(Stage::Placed, Request::Place)
        } else if self.linked {
            self.asks(Stage::TickLinkRead, Request::ReadLinkRunning)
        } else {
            self.asks(Stage::Drawn, Request::Draw)
        }
    }

    /// The move after `reply` at `now`.
    pub open spec fn resumed(self, reply: Reply, now: Instant) -> Move {
        match self.stage {
            Stage::Idle => self.asks(Stage::Idle, Request::Done),
            Stage::SecureInputRead => self.notes_secure_input(reply.is_yes()),
            Stage::SecureInputReported => self.asks(Stage::ActivityRead, Request::ReadActivity),
            Stage::ActivityRead => self.attends(reply.is_yes()),
            Stage::Placed => self.placed(),
            Stage::WindowRead => self.ensures_ordered(reply.is_on_screen(), now),
            Stage::OrderedFront => self.notes_ordering(now),
            Stage::OrderingReported => self.ensures_link(now),
            Stage::LinkRead => if reply.is_yes() {
                self.link_attended()
            } else {
                self.retries_link(now)
            },
            Stage::LinkCreated => self.link_created(reply),
            Stage::LinkStarted => self.link_started(reply),
            Stage::LinkReported => self.link_attended(),
            Stage::TickLinkRead => if reply.is_yes() {
                self.asks(Stage::Idle, Request::Done)
            } else {
                self.asks(Stage::Drawn, Request::Draw)
            },
            Stage::Drawn => self.asks(Stage::Idle, Request::Done),
            Stage::RestLinkRead => if reply.is_yes() {
                self.asks(Stage::RestLinkStopped, Request::StopLink)
            } else {
                self.rests()
            },
            Stage::RestLinkStopped => self.rests(),
            Stage::OrderedOut => self.asks(Stage::Idle, Request::Done),
            Stage::ShowOrdered => self.ordered_front(now).asks(
                Stage::ShowWindowRead,
                Request::ReadWindow,
            ),
            Stage::ShowWindowRead => if reply.is_visible() {
                self.asks(Stage::ShownReported, Request::Report(Notice::Shown))
            } else {
                self.asks(Stage::ShowOrderedAgain, Request::OrderFront)
            },
            Stage::ShowOrderedAgain => self.asks(
                Stage::ShowOrderedAgainReported,
                Request::Report(Notice::OrderedAgain),
            ),
            Stage::ShowOrderedAgainReported => self.asks(
                Stage::ShownReported,
                Request::Report(Notice::Shown),
            ),
            Stage::ShownReported => self.asks(Stage::Idle, Request::Done),
        }
    }

    /// The move that begins `Create`.
    pub open spec fn creates(self, now: Instant) -> Move {
        Upkeep { routine: Routine::Create, ..self }.ensures_link(now)
    }

    /// The move that begins `Show`; only a start shows the display.
    pub open spec fn shows(self, event: DictationIndicatorEvent) -> Move {
        if event.is_start() {
            Upkeep { routine: Routine::Show, ..self }.asks(Stage::Placed, Request::Place)
        } else {
            self.asks(Stage::Idle, Request::Done)
        }
    }

    /// The move that begins `Maintain`.
    pub open spec fn maintains(self, now: Instant) -> Move {
        Upkeep { routine: Routine::Maintain, ..self }.watches_secure_input(now)
    }

    /// At most how many replies the running routine still waits for.
    pub open spec fn replies_left(self) -> nat {
        match self.stage {
            Stage::Idle => 0,
            Stage::SecureInputRead => 14,
            Stage::SecureInputReported => 13,
            Stage::ActivityRead => 12,
            Stage::Placed => if self.routine == Routine::Maintain {
                11
            } else {
                6
            },
            Stage::WindowRead => 10,
            Stage::OrderedFront => 9,
            Stage::OrderingReported => 8,
            Stage::LinkRead => if self.routine == Routine::Maintain {
                7
            } else {
                10
            },
            Stage::LinkCreated => if self.routine == Routine::Maintain {
                6
            } else {
                9
            },
            Stage::LinkStarted => if self.routine == Routine::Maintain {
                5
            } else {
                8
            },
            Stage::LinkReported => if self.routine == Routine::Maintain {
                4
            } else {
                7
            },
            Stage::TickLinkRead => 2,
            Stage::Drawn => 1,
            Stage::RestLinkRead => 3,
            Stage::RestLinkStopped => 2,
            Stage::OrderedOut => 1,
            Stage::ShowOrdered => 5,
            Stage::ShowWindowRead => 4,
            Stage::ShowOrderedAgain => 3,
            Stage::ShowOrderedAgainReported => 2,
            Stage::ShownReported => 1,
        }
    }

    /// Whether the stage belongs to the routine.
    pub open spec fn wf(self) -> bool {
        match self.stage {
            Stage::SecureInputRead
            | Stage::SecureInputReported
            | Stage::ActivityRead
            | Stage::WindowRead
            | Stage::OrderedFront
            | Stage::OrderingReported
            | Stage::TickLinkRead
            | Stage::Drawn
            | Stage::RestLinkRead
            | Stage::RestLinkStopped
            | Stage::OrderedOut => self.routine == Routine::Maintain,
            Stage::ShowOrdered
            | Stage::ShowWindowRead
            | Stage::ShowOrderedAgain
            | Stage::ShowOrderedAgainReported
            | Stage::ShownReported => self.routine == Routine::Show,
            Stage::LinkRead
            | Stage::LinkCreated
            | Stage::LinkStarted
            | Stage::LinkReported => self.routine != Routine::Show,
            Stage::Idle | Stage::Placed => true,
        }
    }

    /// Whether the clock can show when the display link may be tried again.
    pub open spec fn clock_allows(now: Instant) -> bool {
        now.can_advance(Duration::of_millis(DISPLAY_LINK_RETRY_INTERVAL_MILLIS))
    }
}

/// A routine that waits for a reply comes nearer to its end with every reply, whatever the
/// replies are, and says `Done` exactly when it gets there.
#[verifier::rlimit(30)]
pub proof fn law_routines_end(upkeep: Upkeep, reply: Reply, now: Instant)
    ensures
        upkeep.wf() ==> upkeep.resumed(reply, now).upkeep.wf(),
        upkeep.wf() && upkeep.stage != Stage::Idle ==> upkeep.resumed(
            reply,
            now,
        ).upkeep.replies_left() < upkeep.replies_left(),
        upkeep.resumed(reply, now).request == Request::Done <==> upkeep.resumed(
            reply,
            now,
        ).upkeep.stage == Stage::Idle,
{
    reveal(Upkeep::ensures_link);
    reveal(Upkeep::retries_link);
    reveal(Upkeep::link_attended);
    reveal(Upkeep::rests);
}

impl Upkeep {
    /// Starts with a window that was just made.
    pub fn new() -> (upkeep: Upkeep)
        ensures
            upkeep == Upkeep::initial(),
            upkeep.wf(),
    {
        Upkeep {
            linked: false,
            display_link_retry_at: None,
            ordered: false,
            ordered_at: None,
            ordering_retry_logged: false,
            degraded_logged: false,
            secure_input_enabled: false,
            secure_input_checked_at: None,
            routine: Routine::Create,
            stage: Stage::Idle,
        }
    }

    /// Begins to bring a new display up.
    pub fn begin_create(&mut self, now: Instant) -> (request: Request)
        requires
            Upkeep::clock_allows(now),
        ensures
            (Move { upkeep: *final(self), request }) == old(self).creates(now),
            final(self).wf(),
    {
        proof {
            reveal(Upkeep::ensures_link);
            reveal(Upkeep::retries_link);
            reveal(Upkeep::link_attended);
        }
        self.routine = Routine::Create;
        self.ensure_display_link(now)
    }

    /// Begins to bring the display to the front, if `event` starts a recording.
    pub fn begin_show(&mut self, event: &DictationIndicatorEvent) -> (request: Request)
        ensures
            (Move { upkeep: *final(self), request }) == old(self).shows(*event),
            final(self).wf(),
    {
        if event.starts_recording() {
            self.routine = Routine::Show;
            self.ask(Stage::Placed, Request::Place)
        } else {
            self.ask(Stage::Idle, Request::Done)
        }
    }

    /// Begins to look after the display.
    pub fn begin_maintain(&mut self, now: Instant) -> (request: Request)
        ensures
            (Move { upkeep: *final(self), request }) == old(self).maintains(now),
            final(self).wf(),
    {
        self.routine = Routine::Maintain;
        self.watch_secure_input(now)
    }

    /// Goes on after `reply` to the last request, at `now`.
    pub fn resume(&mut self, reply: Reply, now: Instant) -> (request: Request)
        requires
            Upkeep::clock_allows(now),
        ensures
            (Move { upkeep: *final(self), request }) == old(self).resumed(reply, now),
            old(self).wf() ==> final(self).wf(),
            request == Request::Done <==> final(self).stage == Stage::Idle,
    {
        proof {
            law_routines_end(*self, reply, now);
        }
        match self.stage {
            Stage::Idle => self.ask(Stage::Idle, Request::Done),
            Stage::SecureInputRead => self.note_secure_input(reply.yes()),
            Stage::SecureInputReported => self.ask(Stage::ActivityRead, Request::ReadActivity),
            Stage::ActivityRead => self.attend(reply.yes()),
            Stage::Placed => match self.routine {
                Routine::Create => self.ask(Stage::Idle, Request::Done),
                Routine::Show => self.ask(Stage::ShowOrdered, Request::OrderFront),
                Routine::Maintain => self.ask(Stage::WindowRead, Request::ReadWindow),
            },
            Stage::WindowRead => self.ensure_ordered_front(reply.visible_on_screen(), now),
            Stage::OrderedFront => self.note_ordering(now),
            Stage::OrderingReported => self.ensure_display_link(now),
            Stage::LinkRead => if reply.yes() {
                self.draw_tick()
            } else {
                self.retry_display_link(now)
            },
            Stage::LinkCreated => match reply {
                Reply::Refused { status } => self.enter_degraded_mode(status),
                _ => {
                    self.linked = true;
                    self.ask(Stage::LinkStarted, Request::StartLink)
                },
            },
            Stage::LinkStarted => match reply {
                Reply::Refused { status } => self.enter_degraded_mode(status),
                _ => self.leave_degraded_mode(),
            },
            Stage::LinkReported => self.draw_tick(),
            Stage::TickLinkRead => if reply.yes() {
                self.ask(Stage::Idle, Request::Done)
            } else {
                self.ask(Stage::Drawn, Request::Draw)
            },
            Stage::Drawn => self.ask(Stage::Idle, Request::Done),
            Stage::RestLinkRead => if reply.yes() {
                self.ask(Stage::RestLinkStopped, Request::StopLink)
            } else {
                self.rest()
            },
            Stage::RestLinkStopped => self.rest(),
            Stage::OrderedOut => self.ask(Stage::Idle, Request::Done),
            Stage::ShowOrdered => {
                self.order_front(now);
                self.ask(Stage::ShowWindowRead, Request::ReadWindow)
            },
            Stage::ShowWindowRead => if reply.visible() {
                self.ask(Stage::ShownReported, Request::Report(Notice::Shown))
            } else {
                self.ask(Stage::ShowOrderedAgain, Request::OrderFront)
            },
            Stage::ShowOrderedAgain => self.ask(
                Stage::ShowOrderedAgainReported,
                Request::Report(Notice::OrderedAgain),
            ),
            Stage::ShowOrderedAgainReported => self.ask(
                Stage::ShownReported,
                Request::Report(Notice::Shown),
            ),
            Stage::ShownReported => self.ask(Stage::Idle, Request::Done),
        }
    }

    /// Makes `request` and waits at `stage`.
    fn ask(&mut self, stage: Stage, request: Request) -> (r: Request)
        ensures
            (Move { upkeep: *final(self), request: r }) == old(self).asks(stage, request),
    {
        self.stage = stage;
        request
    }

    /// Looks at secure input, unless that was done a moment ago.
    fn watch_secure_input(&mut self, now: Instant) -> (request: Request)
        ensures
            (Move { upkeep: *final(self), request }) == old(self).watches_secure_input(now),
    {
        if let Some(checked_at) = self.secure_input_checked_at {
            if now.duration_since(checked_at).nanos < Duration::from_millis(
                SECURE_INPUT_POLL_INTERVAL_MILLIS,
            ).nanos {
                return self.ask(Stage::ActivityRead, Request::ReadActivity);
            }
        }
        self.secure_input_checked_at = Some(now);
        self.ask(Stage::SecureInputRead, Request::ReadSecureInput)
    }

    /// Reports a change of secure input.
    fn note_secure_input(&mut self, enabled: bool) -> (request: Request)
        ensures
            (Move { upkeep: *final(self), request }) == old(self).notes_secure_input(enabled),
    {
        if enabled == self.secure_input_enabled {
            return self.ask(Stage::ActivityRead, Request::ReadActivity);
        }
        self.secure_input_enabled = enabled;
        let notice = if enabled {
            Notice::SecureInputEngaged
        } else {
            Notice::SecureInputReleased
        };
        self.ask(Stage::SecureInputReported, Request::Report(notice))
    }

    /// Looks after an active display, and puts an inactive one to rest.
    fn attend(&mut self, active: bool) -> (request: Request)
        ensures
            (Move { upkeep: *final(self), request }) == old(self).attends(active),
    {
        if active {
            self.ask(Stage::Placed, Request::Place)
        } else if self.linked {
            self.ask(Stage::RestLinkRead, Request::ReadLinkRunning)
        } else {
            self.rest()
        }
    }

    /// Takes the window off the screen and forgets reported failures.
    fn rest(&mut self) -> (request: Request)
        ensures
            (Move { upkeep: *final(self), request }) == old(self).rests(),
    {
        proof {
            reveal(Upkeep::rests);
        }
        let was_ordered = self.ordered;
        self.ordered = false;
        self.degraded_logged = false;
        if was_ordered {
            self.ask(Stage::OrderedOut, Request::OrderOut)
        } else {
            self.ask(Stage::Idle, Request::Done)
        }
    }

    /// Orders the window front if the window server dropped it.
    fn ensure_ordered_front(&mut self, on_screen: bool, now: Instant) -> (request: Request)
        requires
            Upkeep::clock_allows(now),
        ensures
            (Move { upkeep: *final(self), request }) == old(self).ensures_ordered(on_screen, now),
    {
        if on_screen {
            self.ordering_retry_logged = false;
            return self.ensure_display_link(now);
        }
        if let Some(ordered_at) = self.ordered_at {
            if now.duration_since(ordered_at).nanos < Duration::from_millis(
                ORDERING_GRACE_MILLIS,
            ).nanos {
                return self.ensure_display_link(now);
            }
        }
        self.ask(Stage::OrderedFront, Request::OrderFront)
    }

    /// Notes that the window was ordered front.
    fn order_front(&mut self, now: Instant)
        ensures
            *final(self) == old(self).ordered_front(now),
    {
        self.ordered = true;
        self.ordered_at = Some(now);
    }

    /// Reports the first of a row of attempts to order the window front.
    fn note_ordering(&mut self, now: Instant) -> (request: Request)
        requires
            Upkeep::clock_allows(now),
        ensures
            (Move { upkeep: *final(self), request }) == old(self).notes_ordering(now),
    {
        self.order_front(now);
        if self.ordering_retry_logged {
            return self.ensure_display_link(now);
        }
        self.ordering_retry_logged = true;
        self.ask(Stage::OrderingReported, Request::Report(Notice::NotVisible))
    }

    /// Brings the display link up if it is not running.
    fn ensure_display_link(&mut self, now: Instant) -> (request: Request)
        requires
            Upkeep::clock_allows(now),
        ensures
            (Move { upkeep: *final(self), request }) == old(self).ensures_link(now),
    {
        proof {
            reveal(Upkeep::ensures_link);
        }
        if self.linked {
            self.ask(Stage::LinkRead, Request::ReadLinkRunning)
        } else {
            self.retry_display_link(now)
        }
    }

    /// Tries to bring the display link up, unless that was tried a moment ago.
    fn retry_display_link(&mut self, now: Instant) -> (request: Request)
        requires
            Upkeep::clock_allows(now),
        ensures
            (Move { upkeep: *final(self), request }) == old(self).retries_link(now),
    {
        proof {
            reveal(Upkeep::retries_link);
        }
        if let Some(retry_at) = self.display_link_retry_at {
            if now.nanos < retry_at.nanos {
                return self.draw_tick();
            }
        }
        self.display_link_retry_at = Some(
            now.advance(Duration::from_millis(DISPLAY_LINK_RETRY_INTERVAL_MILLIS)),
        );
        if self.linked {
            self.ask(Stage::LinkStarted, Request::StartLink)
        } else {
            self.ask(Stage::LinkCreated, Request::CreateLink)
        }
    }

    /// Reports the first of a row of failures of the display link.
    fn enter_degraded_mode(&mut self, status: i32) -> (request: Request)
        ensures
            (Move { upkeep: *final(self), request }) == old(self).degrades(status),
    {
        if self.degraded_logged {
            return self.draw_tick();
        }
        self.degraded_logged = true;
        self.ask(Stage::LinkReported, Request::Report(Notice::LinkUnavailable { status }))
    }

    /// Reports that the display link works again, if its failure was reported.
    fn leave_degraded_mode(&mut self) -> (request: Request)
        ensures
            (Move { upkeep: *final(self), request }) == old(self).link_started(Reply::Done),
    {
        if !self.degraded_logged {
            return self.draw_tick();
        }
        self.degraded_logged = false;
        self.ask(Stage::LinkReported, Request::Report(Notice::LinkRecovered))
    }

    /// Goes on once all was done for the display link.
    fn draw_tick(&mut self) -> (request: Request)
        ensures
            (Move { upkeep: *final(self), request }) == old(self).link_attended(),
    {
        proof {
            reveal(Upkeep::link_attended);
        }
        if self.routine != Routine::Maintain {
            self.ask(Stage::Placed, Request::Place)
        } else if self.linked {
            self.ask(Stage::TickLinkRead, Request::ReadLinkRunning)
        } else {
            self.ask(Stage::Drawn, Request::Draw)
        }
    }
}

} // verus!
