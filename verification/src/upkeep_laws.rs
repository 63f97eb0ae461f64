//! What holds of the upkeep of the window over whole routines, and from one to the next.
use crate::event::DictationIndicatorEvent;
use crate::time::{Duration, Instant};
use crate::upkeep::{
    law_routines_end, Move, Notice, Reply, Request, Routine, Stage, Upkeep,
    DISPLAY_LINK_RETRY_INTERVAL_MILLIS, SECURE_INPUT_POLL_INTERVAL_MILLIS,
};
use vstd::prelude::*;

verus! {

/// What a routine meets on its way: what each question is answered, which status the link
/// is refused with, if it is, and when each reply comes.
pub struct World {
    pub clock: spec_fn(Stage) -> Instant,
    pub secure_input: bool,
    pub active: bool,
    pub visible: bool,
    pub unoccluded: bool,
    pub link_running: bool,
    pub link_running_after: bool,
    pub create_refused: Option<i32>,
    pub start_refused: Option<i32>,
}

/// What an attempt at the display link is answered.
pub open spec fn link_reply(refused: Option<i32>) -> Reply {
    match refused {
        Some(status) => Reply::Refused { status },
        None => Reply::Done,
    }
}

impl World {
    /// The reply that a routine gets at `stage`.
    pub open spec fn reply(self, stage: Stage) -> Reply {
        match stage {
            Stage::SecureInputRead => Reply::Answer(self.secure_input),
            Stage::ActivityRead => Reply::Answer(self.active),
            Stage::WindowRead | Stage::ShowWindowRead => Reply::Window {
                visible: self.visible,
                unoccluded: self.unoccluded,
            },
            Stage::LinkRead | Stage::RestLinkRead => Reply::Answer(self.link_running),
            Stage::TickLinkRead => Reply::Answer(self.link_running_after),
            Stage::LinkCreated => link_reply(self.create_refused),
            Stage::LinkStarted => link_reply(self.start_refused),
            _ => Reply::Done,
        }
    }
}

/// The requests of a routine from `m` on.
#[verifier::opaque]
pub open spec fn requests(m: Move, world: World) -> Seq<Request>
    decreases m.upkeep.replies_left(),
    when m.upkeep.wf()
{
    proof {
        law_routines_end(
            m.upkeep,
            world.reply(m.upkeep.stage),
            (world.clock)(m.upkeep.stage),
        );
    }
    if m.upkeep.stage == Stage::Idle {
        seq![m.request]
    } else {
        seq![m.request] + requests(
            m.upkeep.resumed(world.reply(m.upkeep.stage), (world.clock)(m.upkeep.stage)),
            world,
        )
    }
}

/// What is known when a routine ends that is at `upkeep`.
#[verifier::opaque]
pub open spec fn outcome(upkeep: Upkeep, world: World) -> Upkeep
    decreases upkeep.replies_left(),
    when upkeep.wf()
{
    proof {
        law_routines_end(upkeep, world.reply(upkeep.stage), (world.clock)(upkeep.stage));
    }
    if upkeep.stage == Stage::Idle {
        upkeep
    } else {
        outcome(
            upkeep.resumed(world.reply(upkeep.stage), (world.clock)(upkeep.stage)).upkeep,
            world,
        )
    }
}

/// `request`, if `condition` calls for it.
pub open spec fn optional(condition: bool, request: Request) -> Seq<Request> {
    if condition {
        seq![request]
    } else {
        seq![]
    }
}

/// What secure input asks of a routine that begins at `now`: a look, unless there was one a
/// moment ago, and a report of what changed.
#[verifier::opaque]
pub open spec fn secure_input_requests(upkeep: Upkeep, world: World, now: Instant) -> Seq<Request> {
    if upkeep.secure_input_polled(now) {
        seq![]
    } else {
        seq![Request::ReadSecureInput] + optional(
            world.secure_input && !upkeep.secure_input_enabled,
            Request::Report(Notice::SecureInputEngaged),
        ) + optional(
            !world.secure_input && upkeep.secure_input_enabled,
            Request::Report(Notice::SecureInputReleased),
        )
    }
}

/// Whether a window that is to be seen has to be ordered front again.
pub open spec fn reorders(upkeep: Upkeep, world: World) -> bool {
    !(world.visible && world.unoccluded) && !upkeep.ordering_trusted(
        (world.clock)(Stage::WindowRead),
    )
}

/// What a window that is to be seen asks for.
#[verifier::opaque]
pub open spec fn window_requests(upkeep: Upkeep, world: World) -> Seq<Request> {
    seq![Request::Place, Request::ReadWindow] + optional(
        reorders(upkeep, world),
        Request::OrderFront,
    ) + optional(
        reorders(upkeep, world) && !upkeep.ordering_retry_logged,
        Request::Report(Notice::NotVisible),
    )
}

/// When the window of an active display is attended to.
pub open spec fn window_attended_at(upkeep: Upkeep, world: World) -> Instant {
    if !reorders(upkeep, world) {
        (world.clock)(Stage::WindowRead)
    } else if upkeep.ordering_retry_logged {
        (world.clock)(Stage::OrderedFront)
    } else {
        (world.clock)(Stage::OrderingReported)
    }
}

/// Whether a display link that is looked after from `now` on is tried to be brought up: it is
/// not running, and the last attempt was long enough ago.
pub open spec fn tries_link(upkeep: Upkeep, world: World, now: Instant) -> bool {
    if upkeep.linked {
        !world.link_running && !upkeep.link_retry_pending((world.clock)(Stage::LinkRead))
    } else {
        !upkeep.link_retry_pending(now)
    }
}

/// Whether there is a display link once it was looked after.
pub open spec fn linked_after(upkeep: Upkeep, world: World, now: Instant) -> bool {
    upkeep.linked || tries_link(upkeep, world, now) && world.create_refused is None
}

/// The status with which an attempt at the display link fails, if it does.
pub open spec fn link_refusal(upkeep: Upkeep, world: World) -> Option<i32> {
    if !upkeep.linked && world.create_refused is Some {
        world.create_refused
    } else {
        world.start_refused
    }
}

/// What an attempt at the display link has to report: the first failure, or that it works
/// again.
pub open spec fn report_requests(degraded: bool, refused: Option<i32>) -> Seq<Request> {
    match refused {
        Some(status) => optional(!degraded, Request::Report(Notice::LinkUnavailable { status })),
        None => optional(degraded, Request::Report(Notice::LinkRecovered)),
    }
}

/// What the display link asks for: to be created where there is none, to be started where it
/// does not run, and a report when that begins to fail or ceases to.
#[verifier::opaque]
pub open spec fn link_requests(upkeep: Upkeep, world: World, now: Instant) -> Seq<Request> {
    let tries = tries_link(upkeep, world, now);
    optional(upkeep.linked, Request::ReadLinkRunning) + optional(
        tries && !upkeep.linked,
        Request::CreateLink,
    ) + optional(tries && linked_after(upkeep, world, now), Request::StartLink) + (if tries {
        report_requests(upkeep.degraded_logged, link_refusal(upkeep, world))
    } else {
        seq![]
    })
}

/// What an active display asks for in the end: a frame, unless the display link draws them.
#[verifier::opaque]
pub open spec fn tick_requests(linked: bool, world: World) -> Seq<Request> {
    optional(linked, Request::ReadLinkRunning) + optional(
        !(linked && world.link_running_after),
        Request::Draw,
    )
}

/// What a display asks for that is at rest: no display link, and no window on screen.
#[verifier::opaque]
pub open spec fn rest_requests(upkeep: Upkeep, world: World) -> Seq<Request> {
    optional(upkeep.linked, Request::ReadLinkRunning) + optional(
        upkeep.linked && world.link_running,
        Request::StopLink,
    ) + optional(upkeep.ordered, Request::OrderOut)
}

proof fn lemma_step(m: Move, world: World)
    requires
        m.upkeep.wf(),
        m.upkeep.stage != Stage::Idle,
    ensures
        ({
            let next = m.upkeep.resumed(
                world.reply(m.upkeep.stage),
                (world.clock)(m.upkeep.stage),
            );
            &&& next.upkeep.wf()
            &&& requests(m, world) == seq![m.request] + requests(next, world)
            &&& outcome(m.upkeep, world) == outcome(next.upkeep, world)
        }),
{
    reveal_with_fuel(requests, 1);
    reveal_with_fuel(outcome, 1);
    law_routines_end(m.upkeep, world.reply(m.upkeep.stage), (world.clock)(m.upkeep.stage));
}

proof fn lemma_last(m: Move, world: World)
    requires
        m.upkeep.stage == Stage::Idle,
    ensures
        requests(m, world) == seq![m.request],
        outcome(m.upkeep, world) == m.upkeep,
{
    reveal_with_fuel(requests, 1);
    reveal_with_fuel(outcome, 1);
}

/// To go on once all was done for the display link changes nothing but the stage.
proof fn lemma_attended_facts(upkeep: Upkeep)
    ensures
        ({
            let m = upkeep.link_attended();
            &&& m.upkeep == (Upkeep { stage: m.upkeep.stage, ..upkeep })
            &&& m.request == Request::Place || m.request == Request::ReadLinkRunning || m.request
                == Request::Draw
            &&& upkeep.routine != Routine::Show ==> m.upkeep.wf()
        }),
{
    reveal(Upkeep::link_attended);
}

/// Where the routine goes on from there does not depend on the stage before.
proof fn lemma_attended_leaves_stage(one: Upkeep, other: Upkeep)
    requires
        one == (Upkeep { stage: one.stage, ..other }),
    ensures
        one.link_attended() == other.link_attended(),
{
    reveal(Upkeep::link_attended);
}

/// Whether `m` is a move on to the display link: it is left alone, or tried when no attempt
/// is too recent.
spec fn is_link_move(upkeep: Upkeep, m: Move, now: Instant) -> bool {
    let tried = Upkeep {
        display_link_retry_at: Some(
            now.advanced(Duration::of_millis(DISPLAY_LINK_RETRY_INTERVAL_MILLIS)),
        ),
        ..upkeep
    };
    ||| {
        &&& m.upkeep == (Upkeep { stage: m.upkeep.stage, ..upkeep })
        &&& m.request == Request::Place || m.request == Request::ReadLinkRunning || m.request
            == Request::Draw
    }
    ||| {
        &&& !upkeep.link_retry_pending(now)
        &&& m.upkeep == (Upkeep { stage: m.upkeep.stage, ..tried })
        &&& m.request == Request::CreateLink || m.request == Request::StartLink
    }
}

proof fn lemma_link_moves(upkeep: Upkeep, now: Instant)
    ensures
        is_link_move(upkeep, upkeep.retries_link(now), now),
        is_link_move(upkeep, upkeep.ensures_link(now), now),
{
    reveal(Upkeep::ensures_link);
    reveal(Upkeep::retries_link);
    lemma_attended_facts(upkeep);
}

proof fn lemma_tick(upkeep: Upkeep, world: World)
    requires
        upkeep.routine == Routine::Maintain,
    ensures
        requests(upkeep.link_attended(), world) == tick_requests(upkeep.linked, world).push(
            Request::Done,
        ),
        outcome(upkeep.link_attended().upkeep, world) == (Upkeep { stage: Stage::Idle, ..upkeep }),
{
    reveal(Upkeep::link_attended);
    reveal(tick_requests);
    let m = upkeep.link_attended();
    lemma_step(m, world);
    let n = m.upkeep.resumed(world.reply(m.upkeep.stage), (world.clock)(m.upkeep.stage));
    if n.upkeep.stage == Stage::Idle {
        lemma_last(n, world);
    } else {
        lemma_step(n, world);
        let o = n.upkeep.resumed(world.reply(n.upkeep.stage), (world.clock)(n.upkeep.stage));
        lemma_last(o, world);
    }
    assert(requests(m, world) =~= tick_requests(upkeep.linked, world).push(Request::Done));
}

/// What is known once the display link was looked after.
pub open spec fn link_outcome(upkeep: Upkeep, world: World, now: Instant) -> Upkeep {
    let tried_at = if upkeep.linked {
        (world.clock)(Stage::LinkRead)
    } else {
        now
    };
    if tries_link(upkeep, world, now) {
        Upkeep {
            linked: linked_after(upkeep, world, now),
            display_link_retry_at: Some(
                tried_at.advanced(Duration::of_millis(DISPLAY_LINK_RETRY_INTERVAL_MILLIS)),
            ),
            degraded_logged: link_refusal(upkeep, world) is Some,
            ..upkeep
        }
    } else {
        upkeep
    }
}

/// Where the routine goes on once the display link was looked after.
proof fn lemma_link(upkeep: Upkeep, world: World, now: Instant)
    requires
        upkeep.routine != Routine::Show,
    ensures
        ({
            let next = link_outcome(upkeep, world, now).link_attended();
            &&& next.upkeep.wf()
            &&& upkeep.ensures_link(now).upkeep.wf()
            &&& requests(upkeep.ensures_link(now), world) == link_requests(upkeep, world, now)
                + requests(next, world)
            &&& outcome(upkeep.ensures_link(now).upkeep, world) == outcome(next.upkeep, world)
        }),
{
    if upkeep.linked {
        lemma_existing_link(upkeep, world, now);
    } else {
        lemma_missing_link(upkeep, world, now);
    }
}

proof fn lemma_existing_link(upkeep: Upkeep, world: World, now: Instant)
    requires
        upkeep.routine != Routine::Show,
        upkeep.linked,
    ensures
        ({
            let next = link_outcome(upkeep, world, now).link_attended();
            &&& next.upkeep.wf()
            &&& upkeep.ensures_link(now).upkeep.wf()
            &&& requests(upkeep.ensures_link(now), world) == link_requests(upkeep, world, now)
                + requests(next, world)
            &&& outcome(upkeep.ensures_link(now).upkeep, world) == outcome(next.upkeep, world)
        }),
{
    reveal(Upkeep::ensures_link);
    reveal(Upkeep::retries_link);
    lemma_attended_facts(link_outcome(upkeep, world, now));
    reveal(link_requests);
    let next = link_outcome(upkeep, world, now).link_attended();
    let start = upkeep.ensures_link(now);
    let read_at = (world.clock)(Stage::LinkRead);
    let asked = link_requests(upkeep, world, now);
    lemma_step(start, world);
    if tries_link(upkeep, world, now) {
        let tried = start.upkeep.retries_link(read_at);
        let reported = report_requests(upkeep.degraded_logged, world.start_refused);
        lemma_attempt(upkeep, world, tried);
        let attempted = Upkeep {
            degraded_logged: world.start_refused is Some,
            ..tried.upkeep
        };
        lemma_attended_leaves_stage(attempted, link_outcome(upkeep, world, now));
        assert(asked =~= seq![Request::ReadLinkRunning, Request::StartLink] + reported);
        lemma_flatten_attempt(
            Request::ReadLinkRunning,
            Request::StartLink,
            reported,
            requests(next, world),
        );
    } else {
        assert(asked =~= seq![Request::ReadLinkRunning]);
        lemma_attended_leaves_stage(start.upkeep, upkeep);
    }
}

proof fn lemma_flatten_attempt(a: Request, b: Request, c: Seq<Request>, d: Seq<Request>)
    ensures
        seq![a] + (seq![b] + c + d) == seq![a, b] + c + d,
{
    assert(seq![a] + (seq![b] + c + d) =~= seq![a, b] + c + d);
}

proof fn lemma_missing_link(upkeep: Upkeep, world: World, now: Instant)
    requires
        upkeep.routine != Routine::Show,
        !upkeep.linked,
    ensures
        ({
            let next = link_outcome(upkeep, world, now).link_attended();
            &&& next.upkeep.wf()
            &&& upkeep.ensures_link(now).upkeep.wf()
            &&& requests(upkeep.ensures_link(now), world) == link_requests(upkeep, world, now)
                + requests(next, world)
            &&& outcome(upkeep.ensures_link(now).upkeep, world) == outcome(next.upkeep, world)
        }),
{
    reveal(Upkeep::ensures_link);
    reveal(Upkeep::retries_link);
    lemma_attended_facts(link_outcome(upkeep, world, now));
    reveal(link_requests);
    let next = link_outcome(upkeep, world, now).link_attended();
    let start = upkeep.ensures_link(now);
    let asked = link_requests(upkeep, world, now);
    if !tries_link(upkeep, world, now) {
        assert(next == start);
        assert(asked =~= seq![]);
        assert(requests(start, world) =~= asked + requests(next, world));
    } else if world.create_refused is None {
        lemma_step(start, world);
        let made = start.upkeep.link_created(Reply::Done);
        let reported = report_requests(upkeep.degraded_logged, world.start_refused);
        lemma_attempt(upkeep, world, made);
        let attempted = Upkeep {
            degraded_logged: world.start_refused is Some,
            ..made.upkeep
        };
        lemma_attended_leaves_stage(attempted, link_outcome(upkeep, world, now));
        assert(asked =~= seq![Request::CreateLink, Request::StartLink] + reported);
        lemma_flatten_attempt(
            Request::CreateLink,
            Request::StartLink,
            reported,
            requests(next, world),
        );
    } else {
        lemma_step(start, world);
        let failed = start.upkeep.degrades(world.create_refused.unwrap());
        let reported = report_requests(upkeep.degraded_logged, world.create_refused);
        assert(asked =~= seq![Request::CreateLink] + reported);
        if !upkeep.degraded_logged {
            lemma_report(failed, world);
            lemma_attended_leaves_stage(failed.upkeep, link_outcome(upkeep, world, now));
        } else {
            lemma_attended_leaves_stage(start.upkeep, link_outcome(upkeep, world, now));
        }
        assert(requests(failed, world) =~= reported + requests(next, world));
        assert(requests(start, world) =~= asked + requests(next, world));
    }
}

/// An attempt from the request to start the display link on.
proof fn lemma_attempt(before: Upkeep, world: World, m: Move)
    requires
        m.upkeep.routine != Routine::Show,
        m.upkeep.stage == Stage::LinkStarted,
        m.upkeep.linked,
        m.upkeep.degraded_logged == before.degraded_logged,
    ensures
        ({
            let next = Upkeep {
                degraded_logged: world.start_refused is Some,
                ..m.upkeep
            }.link_attended();
            &&& next.upkeep.wf()
            &&& requests(m, world) == seq![m.request] + report_requests(
                before.degraded_logged,
                world.start_refused,
            ) + requests(next, world)
            &&& outcome(m.upkeep, world) == outcome(next.upkeep, world)
        }),
{
    let next = Upkeep {
        degraded_logged: world.start_refused is Some,
        ..m.upkeep
    }.link_attended();
    let ended = Upkeep { degraded_logged: world.start_refused is Some, ..m.upkeep };
    lemma_attended_facts(ended);
    lemma_step(m, world);
    let n = m.upkeep.link_started(link_reply(world.start_refused));
    if before.degraded_logged == (world.start_refused is None) {
        lemma_report(n, world);
        lemma_attended_leaves_stage(n.upkeep, ended);
    }
    assert(requests(m, world) =~= seq![m.request] + report_requests(
        before.degraded_logged,
        world.start_refused,
    ) + requests(next, world));
}

proof fn lemma_report(m: Move, world: World)
    requires
        m.upkeep.routine != Routine::Show,
        m.upkeep.stage == Stage::LinkReported,
    ensures
        m.upkeep.link_attended().upkeep.wf(),
        requests(m, world) == seq![m.request] + requests(m.upkeep.link_attended(), world),
        outcome(m.upkeep, world) == outcome(m.upkeep.link_attended().upkeep, world),
{
    lemma_attended_facts(m.upkeep);
    lemma_step(m, world);
}

/// What is known once secure input was looked at.
pub open spec fn secure_input_outcome(upkeep: Upkeep, world: World, now: Instant) -> Upkeep {
    if upkeep.secure_input_polled(now) {
        upkeep
    } else {
        Upkeep {
            secure_input_enabled: world.secure_input,
            secure_input_checked_at: Some(now),
            ..upkeep
        }
    }
}

/// What is known once the window of an active display was attended to.
pub open spec fn window_outcome(upkeep: Upkeep, world: World) -> Upkeep {
    if world.visible && world.unoccluded {
        Upkeep { ordering_retry_logged: false, ..upkeep }
    } else if reorders(upkeep, world) {
        Upkeep {
            ordered: true,
            ordered_at: Some((world.clock)(Stage::OrderedFront)),
            ordering_retry_logged: true,
            ..upkeep
        }
    } else {
        upkeep
    }
}

/// What is known once a display was put to rest.
pub open spec fn rest_outcome(upkeep: Upkeep) -> Upkeep {
    Upkeep { ordered: false, degraded_logged: false, ..upkeep }
}

proof fn lemma_secure_input(upkeep: Upkeep, world: World, now: Instant)
    requires
        upkeep.routine == Routine::Maintain,
    ensures
        ({
            let next = secure_input_outcome(upkeep, world, now).asks(
                Stage::ActivityRead,
                Request::ReadActivity,
            );
            let start = upkeep.watches_secure_input(now);
            &&& start.upkeep.wf()
            &&& requests(start, world) == secure_input_requests(upkeep, world, now) + requests(
                next,
                world,
            )
            &&& outcome(start.upkeep, world) == outcome(next.upkeep, world)
        }),
{
    reveal(secure_input_requests);
    let next = secure_input_outcome(upkeep, world, now).asks(
        Stage::ActivityRead,
        Request::ReadActivity,
    );
    let start = upkeep.watches_secure_input(now);
    let asked = secure_input_requests(upkeep, world, now);
    if upkeep.secure_input_polled(now) {
        assert(start == next);
    } else {
        lemma_step(start, world);
        let read = start.upkeep.notes_secure_input(world.secure_input);
        if world.secure_input != upkeep.secure_input_enabled {
            lemma_step(read, world);
            assert(read.upkeep.asks(Stage::ActivityRead, Request::ReadActivity) == next);
        } else {
            assert(read == next);
        }
    }
    assert(requests(start, world) =~= asked + requests(next, world));
}

proof fn lemma_stage_is_left(one: Upkeep, other: Upkeep, now: Instant)
    requires
        one == (Upkeep { stage: one.stage, ..other }),
    ensures
        one.ensures_link(now) == other.ensures_link(now),
{
    reveal(Upkeep::ensures_link);
    reveal(Upkeep::retries_link);
    reveal(Upkeep::link_attended);
}

proof fn lemma_window(upkeep: Upkeep, world: World)
    requires
        upkeep.routine == Routine::Maintain,
    ensures
        ({
            let start = upkeep.asks(Stage::Placed, Request::Place);
            let at = window_attended_at(upkeep, world);
            let next = window_outcome(upkeep, world).ensures_link(at);
            &&& requests(start, world) == window_requests(upkeep, world) + requests(next, world)
            &&& outcome(start.upkeep, world) == outcome(next.upkeep, world)
        }),
{
    reveal(window_requests);
    let start = upkeep.asks(Stage::Placed, Request::Place);
    let placed = upkeep.asks(Stage::WindowRead, Request::ReadWindow);
    let read_at = (world.clock)(Stage::WindowRead);
    let next = window_outcome(upkeep, world).ensures_link(window_attended_at(upkeep, world));
    lemma_step(start, world);
    assert(start.upkeep.placed() == placed);
    lemma_step(placed, world);
    let asked = window_requests(upkeep, world);
    if !reorders(upkeep, world) {
        let seen = Upkeep { stage: Stage::WindowRead, ..window_outcome(upkeep, world) };
        lemma_stage_is_left(seen, window_outcome(upkeep, world), read_at);
        assert(placed.upkeep.ensures_ordered(world.visible && world.unoccluded, read_at)
            == next);
        assert(asked =~= seq![Request::Place, Request::ReadWindow]);
    } else {
        let orders = upkeep.asks(Stage::OrderedFront, Request::OrderFront);
        assert(placed.upkeep.ensures_ordered(world.visible && world.unoccluded, read_at)
            == orders);
        lemma_reorder(upkeep, world);
        assert(asked =~= seq![Request::Place, Request::ReadWindow] + reorder_requests(upkeep));
    }
    assert(requests(start, world) =~= asked + requests(next, world));
}

/// What a window asks for that is ordered front again.
spec fn reorder_requests(upkeep: Upkeep) -> Seq<Request> {
    seq![Request::OrderFront] + optional(
        !upkeep.ordering_retry_logged,
        Request::Report(Notice::NotVisible),
    )
}

proof fn lemma_reorder(upkeep: Upkeep, world: World)
    requires
        upkeep.routine == Routine::Maintain,
        reorders(upkeep, world),
    ensures
        ({
            let start = upkeep.asks(Stage::OrderedFront, Request::OrderFront);
            let at = window_attended_at(upkeep, world);
            let next = window_outcome(upkeep, world).ensures_link(at);
            &&& requests(start, world) == reorder_requests(upkeep) + requests(next, world)
            &&& outcome(start.upkeep, world) == outcome(next.upkeep, world)
        }),
{
    let start = upkeep.asks(Stage::OrderedFront, Request::OrderFront);
    let shown = window_outcome(upkeep, world);
    let at = window_attended_at(upkeep, world);
    let next = shown.ensures_link(at);
    lemma_step(start, world);
    let ordered = start.upkeep.notes_ordering((world.clock)(Stage::OrderedFront));
    if upkeep.ordering_retry_logged {
        lemma_stage_is_left(Upkeep { stage: Stage::OrderedFront, ..shown }, shown, at);
        assert(ordered == next);
    } else {
        lemma_step(ordered, world);
        assert(ordered.upkeep == (Upkeep { stage: Stage::OrderingReported, ..shown }));
        lemma_stage_is_left(ordered.upkeep, shown, at);
    }
    assert(requests(start, world) =~= reorder_requests(upkeep) + requests(next, world));
}

proof fn lemma_rest(upkeep: Upkeep, world: World)
    requires
        upkeep.routine == Routine::Maintain,
    ensures
        ({
            let start = upkeep.attends(false);
            &&& start.upkeep.wf()
            &&& requests(start, world) == rest_requests(upkeep, world).push(Request::Done)
            &&& outcome(start.upkeep, world) == (Upkeep {
                stage: Stage::Idle,
                ..rest_outcome(upkeep)
            })
        }),
{
    reveal(Upkeep::rests);
    reveal(rest_requests);
    let start = upkeep.attends(false);
    let rests = upkeep.rests();
    if upkeep.ordered {
        lemma_step(rests, world);
        let done = rests.upkeep.asks(Stage::Idle, Request::Done);
        lemma_last(done, world);
    } else {
        lemma_last(rests, world);
    }
    assert(requests(rests, world) =~= optional(upkeep.ordered, Request::OrderOut).push(
        Request::Done,
    ));
    if upkeep.linked {
        lemma_step(start, world);
        if world.link_running {
            let stops = start.upkeep.asks(Stage::RestLinkStopped, Request::StopLink);
            lemma_step(stops, world);
            assert(stops.upkeep.rests() == rests);
        } else {
            assert(start.upkeep.rests() == rests);
        }
    }
    assert(requests(start, world) =~= rest_requests(upkeep, world).push(Request::Done));
}

/// What an active display asks for.
#[verifier::opaque]
pub open spec fn active_requests(upkeep: Upkeep, world: World) -> Seq<Request> {
    let shown = window_outcome(upkeep, world);
    let at = window_attended_at(upkeep, world);
    window_requests(upkeep, world) + link_requests(shown, world, at) + tick_requests(
        linked_after(shown, world, at),
        world,
    )
}

/// What is known once an active display was looked after.
pub open spec fn active_outcome(upkeep: Upkeep, world: World) -> Upkeep {
    link_outcome(window_outcome(upkeep, world), world, window_attended_at(upkeep, world))
}

proof fn lemma_attended(upkeep: Upkeep, world: World)
    requires
        upkeep.routine == Routine::Maintain,
    ensures
        ({
            let start = upkeep.asks(Stage::Placed, Request::Place);
            &&& requests(start, world) == active_requests(upkeep, world).push(Request::Done)
            &&& outcome(start.upkeep, world) == (Upkeep {
                stage: Stage::Idle,
                ..active_outcome(upkeep, world)
            })
        }),
{
    reveal(active_requests);
    let shown = window_outcome(upkeep, world);
    let at = window_attended_at(upkeep, world);
    lemma_window(upkeep, world);
    lemma_link(shown, world, at);
    lemma_tick(link_outcome(shown, world, at), world);
    lemma_flatten_parts(
        window_requests(upkeep, world),
        link_requests(shown, world, at),
        tick_requests(linked_after(shown, world, at), world),
        Request::Done,
    );
}

proof fn lemma_flatten(a: Seq<Request>, b: Request, c: Seq<Request>)
    ensures
        a + (seq![b] + c.push(Request::Done)) == a + seq![b] + c + seq![Request::Done],
{
    assert(a + (seq![b] + c.push(Request::Done)) =~= a + seq![b] + c + seq![Request::Done]);
}

proof fn lemma_flatten_parts(a: Seq<Request>, b: Seq<Request>, c: Seq<Request>, d: Request)
    ensures
        a + (b + c.push(d)) == (a + b + c).push(d),
{
    assert(a + (b + c.push(d)) =~= (a + b + c).push(d));
}

/// Looking after the display, from beginning to end: secure input is looked at first; then
/// an active display is put in place, ordered front if it has to be, provided with a display
/// link, and drawn if the link does not do that, while an inactive one is put to rest.
pub proof fn law_maintain(upkeep: Upkeep, world: World, now: Instant)
    ensures
        ({
            let begun = Upkeep { routine: Routine::Maintain, ..upkeep };
            let watched = secure_input_outcome(begun, world, now);
            let start = upkeep.maintains(now);
            &&& requests(start, world) == secure_input_requests(upkeep, world, now)
                + seq![Request::ReadActivity] + (if world.active {
                active_requests(watched, world)
            } else {
                rest_requests(watched, world)
            }) + seq![Request::Done]
            &&& outcome(start.upkeep, world) == (Upkeep {
                stage: Stage::Idle,
                ..if world.active {
                    active_outcome(watched, world)
                } else {
                    rest_outcome(watched)
                }
            })
        }),
{
    let begun = Upkeep { routine: Routine::Maintain, ..upkeep };
    let watched = secure_input_outcome(begun, world, now);
    let head = secure_input_requests(upkeep, world, now);
    assert(head == secure_input_requests(begun, world, now)) by {
        reveal(secure_input_requests);
    }
    lemma_secure_input(begun, world, now);
    let activity = watched.asks(Stage::ActivityRead, Request::ReadActivity);
    lemma_step(activity, world);
    let next = activity.upkeep.attends(world.active);
    if world.active {
        assert(next == watched.asks(Stage::Placed, Request::Place));
        lemma_attended(watched, world);
    } else {
        assert(next == watched.attends(false)) by {
            reveal(Upkeep::rests);
        }
        lemma_rest(watched, world);
    }
    let body = if world.active {
        active_requests(watched, world)
    } else {
        rest_requests(watched, world)
    };
    assert(requests(next, world) == body.push(Request::Done));
    lemma_flatten(head, Request::ReadActivity, body);
}

/// Bringing a new display up, from beginning to end: it is provided with a display link and
/// put in place, unseen.
pub proof fn law_create(upkeep: Upkeep, world: World, now: Instant)
    ensures
        ({
            let begun = Upkeep { routine: Routine::Create, ..upkeep };
            let start = upkeep.creates(now);
            &&& requests(start, world) == link_requests(upkeep, world, now) + seq![
                Request::Place,
                Request::Done,
            ]
            &&& outcome(start.upkeep, world) == (Upkeep {
                stage: Stage::Idle,
                ..link_outcome(begun, world, now)
            })
        }),
{
    let begun = Upkeep { routine: Routine::Create, ..upkeep };
    lemma_link(begun, world, now);
    reveal(Upkeep::link_attended);
    let next = link_outcome(begun, world, now).link_attended();
    lemma_step(next, world);
    lemma_last(next.upkeep.placed(), world);
    assert(link_requests(begun, world, now) == link_requests(upkeep, world, now)) by {
        reveal(link_requests);
    }
    assert(requests(next, world) =~= seq![Request::Place, Request::Done]);
}

/// Showing the display when a recording starts, from beginning to end: it is put in place
/// and ordered front, once more if it did not become visible. Other events show nothing.
pub proof fn law_show(upkeep: Upkeep, world: World, event: DictationIndicatorEvent)
    ensures
        event.is_start() ==> requests(upkeep.shows(event), world) == seq![
            Request::Place,
            Request::OrderFront,
            Request::ReadWindow,
        ] + (if world.visible {
            seq![]
        } else {
            seq![Request::OrderFront, Request::Report(Notice::OrderedAgain)]
        }) + seq![Request::Report(Notice::Shown), Request::Done],
        event.is_start() ==> outcome(upkeep.shows(event).upkeep, world) == (Upkeep {
            ordered: true,
            ordered_at: Some((world.clock)(Stage::ShowOrdered)),
            routine: Routine::Show,
            stage: Stage::Idle,
            ..upkeep
        }),
        !event.is_start() ==> requests(upkeep.shows(event), world) == seq![Request::Done],
        !event.is_start() ==> outcome(upkeep.shows(event).upkeep, world) == (Upkeep {
            stage: Stage::Idle,
            ..upkeep
        }),
{
    let start = upkeep.shows(event);
    if event.is_start() {
        lemma_step(start, world);
        let orders = start.upkeep.placed();
        lemma_step(orders, world);
        let reads = orders.upkeep.ordered_front((world.clock)(Stage::ShowOrdered)).asks(
            Stage::ShowWindowRead,
            Request::ReadWindow,
        );
        lemma_step(reads, world);
        let shown = reads.upkeep.asks(Stage::ShownReported, Request::Report(Notice::Shown));
        lemma_step(shown, world);
        lemma_last(shown.upkeep.asks(Stage::Idle, Request::Done), world);
        assert(requests(shown, world) =~= seq![Request::Report(Notice::Shown), Request::Done]);
        if !world.visible {
            let again = reads.upkeep.asks(Stage::ShowOrderedAgain, Request::OrderFront);
            lemma_step(again, world);
            let reports = again.upkeep.asks(
                Stage::ShowOrderedAgainReported,
                Request::Report(Notice::OrderedAgain),
            );
            lemma_step(reports, world);
            assert(reports.upkeep.asks(Stage::ShownReported, Request::Report(Notice::Shown))
                == shown);
        }
    } else {
        lemma_last(start, world);
    }
    assert(event.is_start() ==> requests(start, world) =~= seq![
        Request::Place,
        Request::OrderFront,
        Request::ReadWindow,
    ] + (if world.visible {
        seq![]
    } else {
        seq![Request::OrderFront, Request::Report(Notice::OrderedAgain)]
    }) + seq![Request::Report(Notice::Shown), Request::Done]);
}

/// Something that happens to the upkeep.
pub enum Tick {
    Create { now: Instant },
    Show { event: DictationIndicatorEvent },
    Maintain { now: Instant },
    Resume { reply: Reply, now: Instant },
}

impl Tick {
    /// When the tick happens; showing the display does not look at the clock.
    pub open spec fn time(self) -> Option<Instant> {
        match self {
            Tick::Create { now } | Tick::Maintain { now } | Tick::Resume { now, .. } => Some(now),
            Tick::Show { .. } => None,
        }
    }
}

impl Upkeep {
    /// The move that a tick makes.
    #[verifier::opaque]
    pub open spec fn ticked(self, tick: Tick) -> Move {
        match tick {
            Tick::Create { now } => self.creates(now),
            Tick::Show { event } => self.shows(event),
            Tick::Maintain { now } => self.maintains(now),
            Tick::Resume { reply, now } => self.resumed(reply, now),
        }
    }

    /// What is known after a run of ticks.
    pub open spec fn after_ticks(self, ticks: Seq<Tick>) -> Upkeep
        decreases ticks.len(),
    {
        if ticks.len() == 0 {
            self
        } else {
            self.after_ticks(ticks.drop_last()).ticked(ticks.last()).upkeep
        }
    }

    /// Whether a tick begins an attempt to bring the display link up. To start a link that
    /// was just created belongs to the same attempt.
    pub open spec fn attempts_link(self, tick: Tick) -> bool {
        let request = self.ticked(tick).request;
        ||| request == Request::CreateLink
        ||| request == Request::StartLink && !(tick is Resume && self.stage == Stage::LinkCreated)
    }

    /// Whether a tick puts the display to rest.
    pub open spec fn put_to_rest(self, tick: Tick) -> bool {
        tick matches Tick::Resume { reply, .. } && match self.stage {
            Stage::ActivityRead => !reply.is_yes() && !self.linked,
            Stage::RestLinkRead => !reply.is_yes(),
            Stage::RestLinkStopped => true,
            _ => false,
        }
    }
}

/// Whether a tick makes an attempt at the display link only when none is too recent, and
/// remembers it; nothing else may touch the memory of it.
pub open spec fn remembers_link_attempt(upkeep: Upkeep, tick: Tick) -> bool {
    let after = upkeep.ticked(tick).upkeep.display_link_retry_at;
    &&& upkeep.attempts_link(tick) ==> {
        let now = tick.time().unwrap();
        &&& tick.time() is Some
        &&& !upkeep.link_retry_pending(now)
        &&& after == Some(
            now.advanced(Duration::of_millis(DISPLAY_LINK_RETRY_INTERVAL_MILLIS)),
        )
    }
    &&& !upkeep.attempts_link(tick) ==> after == upkeep.display_link_retry_at
}

/// Whether a tick looks at secure input only if it was not looked at a moment ago, remembers
/// the look, and reports a change, each once and nothing else.
pub open spec fn remembers_secure_input(upkeep: Upkeep, tick: Tick) -> bool {
    let after = upkeep.ticked(tick);
    &&& after.request == Request::ReadSecureInput ==> {
        let now = tick.time().unwrap();
        &&& tick.time() is Some
        &&& !upkeep.secure_input_polled(now)
        &&& after.upkeep.secure_input_checked_at == Some(now)
    }
    &&& after.request != Request::ReadSecureInput ==> after.upkeep.secure_input_checked_at
        == upkeep.secure_input_checked_at
    &&& after.request == Request::Report(Notice::SecureInputEngaged)
        <==> !upkeep.secure_input_enabled && after.upkeep.secure_input_enabled
    &&& after.request == Request::Report(Notice::SecureInputReleased)
        <==> upkeep.secure_input_enabled && !after.upkeep.secure_input_enabled
}

/// Whether a tick reports the loss of the display link only when none is on record, and its
/// recovery only when one is; the record may be cleared by nothing but a recovery or by
/// putting the display to rest.
pub open spec fn remembers_degradation(upkeep: Upkeep, tick: Tick) -> bool {
    let after = upkeep.ticked(tick);
    let lost = after.request matches Request::Report(notice) && notice is LinkUnavailable;
    let found = after.request == Request::Report(Notice::LinkRecovered);
    &&& lost <==> !upkeep.degraded_logged && after.upkeep.degraded_logged
    &&& found ==> upkeep.degraded_logged && !after.upkeep.degraded_logged
    &&& upkeep.degraded_logged && !after.upkeep.degraded_logged ==> found || upkeep.put_to_rest(
        tick,
    )
}

/// All that a tick keeps to.
pub open spec fn keeps_records(upkeep: Upkeep, tick: Tick) -> bool {
    &&& remembers_link_attempt(upkeep, tick)
    &&& remembers_secure_input(upkeep, tick)
    &&& remembers_degradation(upkeep, tick)
    &&& upkeep.linked ==> upkeep.ticked(tick).upkeep.linked
}

proof fn lemma_create_tick(upkeep: Upkeep, now: Instant)
    ensures
        keeps_records(upkeep, Tick::Create { now }),
{
    assert(upkeep.ticked(Tick::Create { now }) == upkeep.creates(now)) by {
        reveal(Upkeep::ticked);
    }
    lemma_link_moves(Upkeep { routine: Routine::Create, ..upkeep }, now);
}

proof fn lemma_begin_show_tick(upkeep: Upkeep, event: DictationIndicatorEvent)
    ensures
        keeps_records(upkeep, Tick::Show { event }),
{
    assert(upkeep.ticked(Tick::Show { event }) == upkeep.shows(event)) by {
        reveal(Upkeep::ticked);
    }
}

proof fn lemma_maintain_tick(upkeep: Upkeep, now: Instant)
    ensures
        keeps_records(upkeep, Tick::Maintain { now }),
{
    assert(upkeep.ticked(Tick::Maintain { now }) == upkeep.maintains(now)) by {
        reveal(Upkeep::ticked);
    }
}

/// A reply makes the routine go on.
proof fn lemma_resume_tick(upkeep: Upkeep, reply: Reply, now: Instant)
    ensures
        upkeep.ticked(Tick::Resume { reply, now }) == upkeep.resumed(reply, now),
{
    reveal(Upkeep::ticked);
}

proof fn lemma_idle_tick(upkeep: Upkeep, reply: Reply, now: Instant)
    requires
        ({
            ||| upkeep.stage == Stage::Idle
            ||| upkeep.stage == Stage::SecureInputRead
            ||| upkeep.stage == Stage::SecureInputReported
        }),
    ensures
        keeps_records(upkeep, Tick::Resume { reply, now }),
{
    lemma_resume_tick(upkeep, reply, now);
}

proof fn lemma_activity_tick(upkeep: Upkeep, reply: Reply, now: Instant)
    requires
        ({
            ||| upkeep.stage == Stage::ActivityRead
            ||| upkeep.stage == Stage::Placed
        }),
    ensures
        keeps_records(upkeep, Tick::Resume { reply, now }),
{
    lemma_resume_tick(upkeep, reply, now);
    reveal(Upkeep::rests);
}

proof fn lemma_window_tick(upkeep: Upkeep, reply: Reply, now: Instant)
    requires
        upkeep.stage == Stage::WindowRead,
    ensures
        keeps_records(upkeep, Tick::Resume { reply, now }),
{
    lemma_resume_tick(upkeep, reply, now);
    lemma_link_moves(upkeep, now);
    lemma_link_moves(Upkeep { ordering_retry_logged: false, ..upkeep }, now);
}

proof fn lemma_ordering_tick(upkeep: Upkeep, reply: Reply, now: Instant)
    requires
        upkeep.stage == Stage::OrderedFront,
    ensures
        keeps_records(upkeep, Tick::Resume { reply, now }),
{
    lemma_resume_tick(upkeep, reply, now);
    lemma_link_moves(upkeep.ordered_front(now), now);
}

proof fn lemma_ordered_tick(upkeep: Upkeep, reply: Reply, now: Instant)
    requires
        upkeep.stage == Stage::OrderingReported,
    ensures
        keeps_records(upkeep, Tick::Resume { reply, now }),
{
    lemma_resume_tick(upkeep, reply, now);
    lemma_link_moves(upkeep, now);
}

proof fn lemma_link_tick(upkeep: Upkeep, reply: Reply, now: Instant)
    requires
        ({
            ||| upkeep.stage == Stage::LinkRead
            ||| upkeep.stage == Stage::LinkReported
        }),
    ensures
        keeps_records(upkeep, Tick::Resume { reply, now }),
{
    lemma_resume_tick(upkeep, reply, now);
    lemma_link_moves(upkeep, now);
    lemma_attended_facts(upkeep);
}

proof fn lemma_attempt_tick(upkeep: Upkeep, reply: Reply, now: Instant)
    requires
        ({
            ||| upkeep.stage == Stage::LinkCreated
            ||| upkeep.stage == Stage::LinkStarted
        }),
    ensures
        keeps_records(upkeep, Tick::Resume { reply, now }),
{
    lemma_resume_tick(upkeep, reply, now);
    lemma_attended_facts(upkeep);
}

proof fn lemma_draw_tick(upkeep: Upkeep, reply: Reply, now: Instant)
    requires
        ({
            ||| upkeep.stage == Stage::TickLinkRead
            ||| upkeep.stage == Stage::Drawn
            ||| upkeep.stage == Stage::OrderedOut
        }),
    ensures
        keeps_records(upkeep, Tick::Resume { reply, now }),
{
    lemma_resume_tick(upkeep, reply, now);
}

proof fn lemma_rest_tick(upkeep: Upkeep, reply: Reply, now: Instant)
    requires
        ({
            ||| upkeep.stage == Stage::RestLinkRead
            ||| upkeep.stage == Stage::RestLinkStopped
        }),
    ensures
        keeps_records(upkeep, Tick::Resume { reply, now }),
{
    lemma_resume_tick(upkeep, reply, now);
    reveal(Upkeep::rests);
}

proof fn lemma_show_tick(upkeep: Upkeep, reply: Reply, now: Instant)
    requires
        ({
            ||| upkeep.stage == Stage::ShowOrdered
            ||| upkeep.stage == Stage::ShowWindowRead
            ||| upkeep.stage == Stage::ShowOrderedAgain
        }),
    ensures
        keeps_records(upkeep, Tick::Resume { reply, now }),
{
    lemma_resume_tick(upkeep, reply, now);
}

proof fn lemma_shown_tick(upkeep: Upkeep, reply: Reply, now: Instant)
    requires
        ({
            ||| upkeep.stage == Stage::ShowOrderedAgainReported
            ||| upkeep.stage == Stage::ShownReported
        }),
    ensures
        keeps_records(upkeep, Tick::Resume { reply, now }),
{
    lemma_resume_tick(upkeep, reply, now);
}

proof fn lemma_tick_keeps_records(upkeep: Upkeep, tick: Tick)
    ensures
        keeps_records(upkeep, tick),
{
    match tick {
        Tick::Create { now } => lemma_create_tick(upkeep, now),
        Tick::Show { event } => lemma_begin_show_tick(upkeep, event),
        Tick::Maintain { now } => lemma_maintain_tick(upkeep, now),
        Tick::Resume { reply, now } => match upkeep.stage {
            Stage::Idle
            | Stage::SecureInputRead
            | Stage::SecureInputReported => lemma_idle_tick(upkeep, reply, now),
            Stage::ActivityRead
            | Stage::Placed => lemma_activity_tick(upkeep, reply, now),
            Stage::WindowRead => lemma_window_tick(upkeep, reply, now),
            Stage::OrderedFront => lemma_ordering_tick(upkeep, reply, now),
            Stage::OrderingReported => lemma_ordered_tick(upkeep, reply, now),
            Stage::LinkRead
            | Stage::LinkReported => lemma_link_tick(upkeep, reply, now),
            Stage::LinkCreated
            | Stage::LinkStarted => lemma_attempt_tick(upkeep, reply, now),
            Stage::TickLinkRead
            | Stage::Drawn
            | Stage::OrderedOut => lemma_draw_tick(upkeep, reply, now),
            Stage::RestLinkRead
            | Stage::RestLinkStopped => lemma_rest_tick(upkeep, reply, now),
            Stage::ShowOrdered
            | Stage::ShowWindowRead
            | Stage::ShowOrderedAgain => lemma_show_tick(upkeep, reply, now),
            Stage::ShowOrderedAgainReported
            | Stage::ShownReported => lemma_shown_tick(upkeep, reply, now),
        },
    }
}

/// An attempt at the display link is made only when none is too recent, and is remembered
/// until the next one.
pub proof fn law_link_attempts_are_remembered(upkeep: Upkeep, tick: Tick)
    ensures
        remembers_link_attempt(upkeep, tick),
{
    lemma_tick_keeps_records(upkeep, tick);
}

/// Secure input is looked at only if it was not looked at a moment ago, and its changes are
/// reported, each once and nothing else, so that the reports take turns.
pub proof fn law_secure_input_changes_are_reported(upkeep: Upkeep, tick: Tick)
    ensures
        remembers_secure_input(upkeep, tick),
{
    lemma_tick_keeps_records(upkeep, tick);
}

/// Attempts at the display link are bounded to one per retry interval: after one that may be
/// repeated at `retry_at`, whatever happens before then begins no other, however often the
/// display is put to rest and woken meanwhile.
pub proof fn law_link_attempts_are_spaced(
    upkeep: Upkeep,
    retry_at: Instant,
    ticks: Seq<Tick>,
    tick: Tick,
)
    requires
        upkeep.display_link_retry_at == Some(retry_at),
        forall|i: int|
            0 <= i < ticks.len() ==> ((#[trigger] ticks[i]).time() matches Some(now) ==> now.nanos
                < retry_at.nanos),
        tick.time() matches Some(now) ==> now.nanos < retry_at.nanos,
    ensures
        upkeep.after_ticks(ticks).display_link_retry_at == Some(retry_at),
        !upkeep.after_ticks(ticks).attempts_link(tick),
    decreases ticks.len(),
{
    if ticks.len() > 0 {
        let before = ticks.drop_last();
        let last = ticks[ticks.len() - 1];
        assert forall|i: int| 0 <= i < before.len() implies (
        (#[trigger] before[i]).time() matches Some(now) ==> now.nanos < retry_at.nanos) by {
            assert(before[i] == ticks[i]);
        }
        law_link_attempts_are_spaced(upkeep, retry_at, before, last);
        law_link_attempts_are_remembered(upkeep.after_ticks(before), last);
    }
    law_link_attempts_are_remembered(upkeep.after_ticks(ticks), tick);
}

/// A display link that could not be created is left alone for a whole retry interval: whatever
/// happens meanwhile, and however often the display is put to rest, looking after the link
/// neither creates nor starts one before the interval is over.
pub proof fn law_refused_links_are_left_alone(
    upkeep: Upkeep,
    tried: Instant,
    status: i32,
    ticks: Seq<Tick>,
    now: Instant,
)
    requires
        Upkeep::clock_allows(tried),
        upkeep.ensures_link(tried).request == Request::CreateLink,
        forall|i: int|
            0 <= i < ticks.len() ==> ((#[trigger] ticks[i]).time() matches Some(at) ==> at.nanos
                < tried.nanos + Duration::of_millis(DISPLAY_LINK_RETRY_INTERVAL_MILLIS).nanos),
        now.nanos < tried.nanos + Duration::of_millis(DISPLAY_LINK_RETRY_INTERVAL_MILLIS).nanos,
    ensures
        ({
            let trying = upkeep.ensures_link(tried).upkeep;
            let refused = trying.resumed(Reply::Refused { status }, tried).upkeep;
            let later = refused.after_ticks(ticks).ensures_link(now);
            later.request != Request::CreateLink && later.request != Request::StartLink
        }),
{
    let trying = upkeep.ensures_link(tried).upkeep;
    let refused = trying.resumed(Reply::Refused { status }, tried).upkeep;
    let retry_at = tried.advanced(Duration::of_millis(DISPLAY_LINK_RETRY_INTERVAL_MILLIS));
    lemma_link_moves(upkeep, tried);
    assert(trying.stage == Stage::LinkCreated) by {
        reveal(Upkeep::ensures_link);
        reveal(Upkeep::retries_link);
        reveal(Upkeep::link_attended);
    }
    lemma_attended_facts(trying);
    assert(refused.display_link_retry_at == Some(retry_at));
    law_link_attempts_are_spaced(refused, retry_at, ticks, Tick::Create { now });
    lemma_link_moves(refused.after_ticks(ticks), now);
}

/// Secure input is looked at no more than once per poll interval: after a look at
/// `checked_at`, whatever happens within the interval looks no more.
pub proof fn law_secure_input_polls_are_spaced(
    upkeep: Upkeep,
    checked_at: Instant,
    ticks: Seq<Tick>,
    tick: Tick,
)
    requires
        upkeep.secure_input_checked_at == Some(checked_at),
        forall|i: int|
            0 <= i < ticks.len() ==> ((#[trigger] ticks[i]).time() matches Some(now) ==> now.since(
                checked_at,
            ).nanos < Duration::of_millis(SECURE_INPUT_POLL_INTERVAL_MILLIS).nanos),
        tick.time() matches Some(now) ==> now.since(checked_at).nanos < Duration::of_millis(
            SECURE_INPUT_POLL_INTERVAL_MILLIS,
        ).nanos,
    ensures
        upkeep.after_ticks(ticks).secure_input_checked_at == Some(checked_at),
        upkeep.after_ticks(ticks).ticked(tick).request != Request::ReadSecureInput,
    decreases ticks.len(),
{
    if ticks.len() > 0 {
        let before = ticks.drop_last();
        let last = ticks[ticks.len() - 1];
        assert forall|i: int| 0 <= i < before.len() implies (
        (#[trigger] before[i]).time() matches Some(now) ==> now.since(checked_at).nanos
            < Duration::of_millis(SECURE_INPUT_POLL_INTERVAL_MILLIS).nanos) by {
            assert(before[i] == ticks[i]);
        }
        law_secure_input_polls_are_spaced(upkeep, checked_at, before, last);
        law_secure_input_changes_are_reported(upkeep.after_ticks(before), last);
    }
    law_secure_input_changes_are_reported(upkeep.after_ticks(ticks), tick);
}

/// What counts as a moment ago: a second for a look at secure input, a quarter of a second for
/// ordering the window front. The display link may be tried again once the time that was set
/// for that has come.
pub proof fn law_moments_have_their_length(upkeep: Upkeep, now: Instant)
    ensures
        upkeep.secure_input_polled(now) <==> (upkeep.secure_input_checked_at matches Some(then)
            && now.nanos - then.nanos < 1_000 * 1_000_000),
        upkeep.ordering_trusted(now) <==> (upkeep.ordered_at matches Some(then) && now.nanos
            - then.nanos < 250 * 1_000_000),
        upkeep.link_retry_pending(now) <==> (upkeep.display_link_retry_at matches Some(then)
            && now.nanos < then.nanos),
{
}

/// After an attempt at the display link the next one may come a second later, and no sooner.
pub proof fn law_link_attempts_wait_a_second(upkeep: Upkeep, tick: Tick, now: Instant)
    requires
        upkeep.attempts_link(tick),
        tick.time() == Some(now),
        Upkeep::clock_allows(now),
    ensures
        upkeep.ticked(tick).upkeep.display_link_retry_at matches Some(retry_at) && retry_at.nanos
            == now.nanos + 1_000 * 1_000_000,
{
    lemma_tick_keeps_records(upkeep, tick);
}

/// Where no routine is running, a reply changes nothing.
pub proof fn law_idle_routines_stay_idle(upkeep: Upkeep, reply: Reply, now: Instant)
    requires
        upkeep.stage == Stage::Idle,
    ensures
        upkeep.resumed(reply, now).upkeep == upkeep,
        upkeep.resumed(reply, now).request == Request::Done,
{
}

/// A new window has no display link, is not on screen, and was never attended to: the first
/// look at secure input, the first ordering and the first attempt at the link wait for nothing.
pub proof fn law_new_windows_wait_for_nothing(now: Instant)
    ensures
        ({
            let new = Upkeep::initial();
            &&& !new.linked
            &&& !new.ordered
            &&& !new.secure_input_polled(now)
            &&& !new.ordering_trusted(now)
            &&& !new.link_retry_pending(now)
            &&& !new.ordering_retry_logged && !new.degraded_logged && !new.secure_input_enabled
            &&& new.stage == Stage::Idle
        }),
{
}

/// The loss of the display link and its recovery are reported once each, in turn.
pub proof fn law_degradation_is_reported_once(upkeep: Upkeep, tick: Tick)
    ensures
        remembers_degradation(upkeep, tick),
{
    lemma_tick_keeps_records(upkeep, tick);
}

/// A display link is never lost once there is one.
pub proof fn law_links_are_kept(upkeep: Upkeep, tick: Tick)
    ensures
        upkeep.linked ==> upkeep.ticked(tick).upkeep.linked,
{
    lemma_tick_keeps_records(upkeep, tick);
}

/// An active display is always animated: where the display link does not run in the end,
/// the upkeep draws a frame.
pub proof fn law_active_displays_are_drawn(upkeep: Upkeep, world: World, now: Instant)
    requires
        world.active,
        !world.link_running_after,
    ensures
        requests(upkeep.maintains(now), world).contains(Request::Draw),
{
    law_maintain(upkeep, world, now);
    reveal(active_requests);
    reveal(tick_requests);
    let all = requests(upkeep.maintains(now), world);
    assert(all[all.len() - 2] == Request::Draw);
}

proof fn lemma_concatenation_contains(a: Seq<Request>, b: Seq<Request>, request: Request)
    ensures
        (a + b).contains(request) <==> a.contains(request) || b.contains(request),
{
    let all = a + b;
    if a.contains(request) {
        let i = choose|i: int| 0 <= i < a.len() && a[i] == request;
        assert(all[i] == request);
    }
    if b.contains(request) {
        let i = choose|i: int| 0 <= i < b.len() && b[i] == request;
        assert(all[a.len() + i] == request);
    }
    if all.contains(request) {
        let i = choose|i: int| 0 <= i < all.len() && all[i] == request;
        if i < a.len() {
            assert(a[i] == request);
        } else {
            assert(b[i - a.len()] == request);
        }
    }
}

proof fn lemma_optional_contains(condition: bool, made: Request, request: Request)
    ensures
        optional(condition, made).contains(request) <==> condition && made == request,
        seq![made].contains(request) <==> made == request,
{
    if condition {
        assert(optional(condition, made)[0] == made);
    }
    assert(seq![made][0] == made);
}

/// What a routine that looks after the display asks for, part by part.
proof fn lemma_maintain_contains(upkeep: Upkeep, world: World, now: Instant, request: Request)
    ensures
        ({
            let begun = Upkeep { routine: Routine::Maintain, ..upkeep };
            let watched = secure_input_outcome(begun, world, now);
            let shown = window_outcome(watched, world);
            let at = window_attended_at(watched, world);
            requests(upkeep.maintains(now), world).contains(request) <==> {
                ||| secure_input_requests(upkeep, world, now).contains(request)
                ||| request == Request::ReadActivity
                ||| world.active && window_requests(watched, world).contains(request)
                ||| world.active && link_requests(shown, world, at).contains(request)
                ||| world.active && tick_requests(linked_after(shown, world, at), world).contains(
                    request,
                )
                ||| !world.active && rest_requests(watched, world).contains(request)
                ||| request == Request::Done
            }
        }),
{
    let begun = Upkeep { routine: Routine::Maintain, ..upkeep };
    let watched = secure_input_outcome(begun, world, now);
    let shown = window_outcome(watched, world);
    let at = window_attended_at(watched, world);
    let head = secure_input_requests(upkeep, world, now);
    let window = window_requests(watched, world);
    let link = link_requests(shown, world, at);
    let tick = tick_requests(linked_after(shown, world, at), world);
    let body = if world.active {
        active_requests(watched, world)
    } else {
        rest_requests(watched, world)
    };
    let activity = seq![Request::ReadActivity];
    law_maintain(upkeep, world, now);
    assert(active_requests(watched, world) == window + link + tick) by {
        reveal(active_requests);
    }
    lemma_concatenation_contains(head + activity + body, seq![Request::Done], request);
    lemma_concatenation_contains(head + activity, body, request);
    lemma_concatenation_contains(head, activity, request);
    lemma_concatenation_contains(window + link, tick, request);
    lemma_concatenation_contains(window, link, request);
    lemma_optional_contains(true, Request::ReadActivity, request);
    lemma_optional_contains(true, Request::Done, request);
}

proof fn lemma_secure_input_contains(upkeep: Upkeep, world: World, now: Instant, request: Request)
    ensures
        secure_input_requests(upkeep, world, now).contains(request) <==> {
            &&& !upkeep.secure_input_polled(now)
            &&& {
                ||| request == Request::ReadSecureInput
                ||| request == Request::Report(Notice::SecureInputEngaged) && world.secure_input
                    && !upkeep.secure_input_enabled
                ||| request == Request::Report(Notice::SecureInputReleased)
                    && !world.secure_input && upkeep.secure_input_enabled
            }
        },
{
    reveal(secure_input_requests);
    let read = seq![Request::ReadSecureInput];
    let engaged = optional(
        world.secure_input && !upkeep.secure_input_enabled,
        Request::Report(Notice::SecureInputEngaged),
    );
    let released = optional(
        !world.secure_input && upkeep.secure_input_enabled,
        Request::Report(Notice::SecureInputReleased),
    );
    lemma_concatenation_contains(read + engaged, released, request);
    lemma_concatenation_contains(read, engaged, request);
    lemma_optional_contains(true, Request::ReadSecureInput, request);
    lemma_optional_contains(
        world.secure_input && !upkeep.secure_input_enabled,
        Request::Report(Notice::SecureInputEngaged),
        request,
    );
    lemma_optional_contains(
        !world.secure_input && upkeep.secure_input_enabled,
        Request::Report(Notice::SecureInputReleased),
        request,
    );
}

proof fn lemma_window_contains(upkeep: Upkeep, world: World, request: Request)
    ensures
        window_requests(upkeep, world).contains(request) <==> {
            ||| request == Request::Place
            ||| request == Request::ReadWindow
            ||| request == Request::OrderFront && reorders(upkeep, world)
            ||| request == Request::Report(Notice::NotVisible) && reorders(upkeep, world)
                && !upkeep.ordering_retry_logged
        },
{
    reveal(window_requests);
    let again = reorders(upkeep, world);
    let place = seq![Request::Place];
    let read = seq![Request::ReadWindow];
    let order = optional(again, Request::OrderFront);
    let report = optional(
        again && !upkeep.ordering_retry_logged,
        Request::Report(Notice::NotVisible),
    );
    assert(seq![Request::Place, Request::ReadWindow] =~= place + read);
    lemma_concatenation_contains(place + read + order, report, request);
    lemma_concatenation_contains(place + read, order, request);
    lemma_concatenation_contains(place, read, request);
    lemma_optional_contains(true, Request::Place, request);
    lemma_optional_contains(true, Request::ReadWindow, request);
    lemma_optional_contains(again, Request::OrderFront, request);
    lemma_optional_contains(
        again && !upkeep.ordering_retry_logged,
        Request::Report(Notice::NotVisible),
        request,
    );
}

proof fn lemma_link_contains(upkeep: Upkeep, world: World, now: Instant, request: Request)
    ensures
        ({
            let tries = tries_link(upkeep, world, now);
            let refusal = link_refusal(upkeep, world);
            link_requests(upkeep, world, now).contains(request) <==> {
                ||| request == Request::ReadLinkRunning && upkeep.linked
                ||| request == Request::CreateLink && tries && !upkeep.linked
                ||| request == Request::StartLink && tries && (upkeep.linked
                    || world.create_refused is None)
                ||| tries && upkeep.degraded_logged && refusal is None && request
                    == Request::Report(Notice::LinkRecovered)
                ||| tries && !upkeep.degraded_logged && refusal is Some && request
                    == Request::Report(Notice::LinkUnavailable { status: refusal.unwrap() })
            }
        }),
{
    reveal(link_requests);
    let tries = tries_link(upkeep, world, now);
    let refusal = link_refusal(upkeep, world);
    let after = linked_after(upkeep, world, now);
    let read = optional(upkeep.linked, Request::ReadLinkRunning);
    let create = optional(tries && !upkeep.linked, Request::CreateLink);
    let start = optional(tries && after, Request::StartLink);
    let report = if tries {
        report_requests(upkeep.degraded_logged, refusal)
    } else {
        seq![]
    };
    lemma_concatenation_contains(read + create + start, report, request);
    lemma_concatenation_contains(read + create, start, request);
    lemma_concatenation_contains(read, create, request);
    lemma_optional_contains(upkeep.linked, Request::ReadLinkRunning, request);
    lemma_optional_contains(tries && !upkeep.linked, Request::CreateLink, request);
    lemma_optional_contains(tries && after, Request::StartLink, request);
    lemma_optional_contains(
        upkeep.degraded_logged,
        Request::Report(Notice::LinkRecovered),
        request,
    );
    if refusal is Some {
        lemma_optional_contains(
            !upkeep.degraded_logged,
            Request::Report(Notice::LinkUnavailable { status: refusal.unwrap() }),
            request,
        );
    }
}

proof fn lemma_end_contains(upkeep: Upkeep, linked: bool, world: World, request: Request)
    ensures
        tick_requests(linked, world).contains(request) <==> {
            ||| request == Request::ReadLinkRunning && linked
            ||| request == Request::Draw && !(linked && world.link_running_after)
        },
        rest_requests(upkeep, world).contains(request) <==> {
            ||| request == Request::ReadLinkRunning && upkeep.linked
            ||| request == Request::StopLink && upkeep.linked && world.link_running
            ||| request == Request::OrderOut && upkeep.ordered
        },
{
    reveal(tick_requests);
    reveal(rest_requests);
    let read = optional(linked, Request::ReadLinkRunning);
    let draws = !(linked && world.link_running_after);
    lemma_concatenation_contains(read, optional(draws, Request::Draw), request);
    lemma_optional_contains(linked, Request::ReadLinkRunning, request);
    lemma_optional_contains(draws, Request::Draw, request);
    let rest_read = optional(upkeep.linked, Request::ReadLinkRunning);
    let stop = optional(upkeep.linked && world.link_running, Request::StopLink);
    let out = optional(upkeep.ordered, Request::OrderOut);
    lemma_concatenation_contains(rest_read + stop, out, request);
    lemma_concatenation_contains(rest_read, stop, request);
    lemma_optional_contains(upkeep.linked, Request::ReadLinkRunning, request);
    lemma_optional_contains(
        upkeep.linked && world.link_running,
        Request::StopLink,
        request,
    );
    lemma_optional_contains(upkeep.ordered, Request::OrderOut, request);
}

proof fn lemma_all_contains(upkeep: Upkeep, world: World, now: Instant, request: Request)
    ensures
        ({
            let begun = Upkeep { routine: Routine::Maintain, ..upkeep };
            let watched = secure_input_outcome(begun, world, now);
            let shown = window_outcome(watched, world);
            let at = window_attended_at(watched, world);
            let tries = tries_link(shown, world, at);
            let linked = linked_after(shown, world, at);
            let all = requests(upkeep.maintains(now), world);
            &&& request == Request::ReadSecureInput ==> (all.contains(request)
                <==> !upkeep.secure_input_polled(now))
            &&& request == Request::Place ==> (all.contains(request) <==> world.active)
            &&& request == Request::OrderFront ==> (all.contains(request) <==> world.active
                && reorders(watched, world))
            &&& request == Request::CreateLink ==> (all.contains(request) <==> world.active && tries
                && !upkeep.linked)
            &&& request == Request::StartLink ==> (all.contains(request) <==> world.active && tries
                && (upkeep.linked || world.create_refused is None))
            &&& request == Request::Draw ==> (all.contains(request) <==> world.active && !(linked
                && world.link_running_after))
            &&& request == Request::StopLink ==> (all.contains(request) <==> !world.active
                && upkeep.linked && world.link_running)
            &&& request == Request::OrderOut ==> (all.contains(request) <==> !world.active
                && upkeep.ordered)
            &&& request == Request::Report(Notice::NotVisible) ==> (all.contains(request)
                <==> world.active && reorders(watched, world) && !upkeep.ordering_retry_logged)
        }),
{
    let begun = Upkeep { routine: Routine::Maintain, ..upkeep };
    let watched = secure_input_outcome(begun, world, now);
    let shown = window_outcome(watched, world);
    let at = window_attended_at(watched, world);
    lemma_maintain_contains(upkeep, world, now, request);
    lemma_secure_input_contains(upkeep, world, now, request);
    lemma_window_contains(watched, world, request);
    lemma_link_contains(shown, world, at, request);
    lemma_end_contains(watched, linked_after(shown, world, at), world, request);
}

/// An active display is put in place and never taken off the screen; its display link is not
/// stopped. The window is ordered front exactly if it is not seen and was not ordered front
/// within the last quarter of a second.
pub proof fn law_active_displays_are_kept_on_screen(upkeep: Upkeep, world: World, now: Instant)
    requires
        world.active,
    ensures
        ({
            let all = requests(upkeep.maintains(now), world);
            let seen = world.visible && world.unoccluded;
            let recent = upkeep.ordered_at matches Some(then) && (world.clock)(
                Stage::WindowRead,
            ).nanos - then.nanos < 250 * 1_000_000;
            &&& all.contains(Request::Place)
            &&& !all.contains(Request::OrderOut)
            &&& !all.contains(Request::StopLink)
            &&& all.contains(Request::OrderFront) <==> !seen && !recent
        }),
{
    lemma_all_contains(upkeep, world, now, Request::Place);
    lemma_all_contains(upkeep, world, now, Request::OrderOut);
    lemma_all_contains(upkeep, world, now, Request::StopLink);
    lemma_all_contains(upkeep, world, now, Request::OrderFront);
}

/// A display link that an active display has but that does not run is started once the time
/// for that has come, and one that it does not have is created then; neither happens to a link
/// that runs. A frame is drawn exactly if in the end no link runs that could draw it.
pub proof fn law_active_displays_are_animated(upkeep: Upkeep, world: World, now: Instant)
    requires
        world.active,
    ensures
        ({
            let all = requests(upkeep.maintains(now), world);
            let read_at = (world.clock)(Stage::LinkRead);
            let due = upkeep.display_link_retry_at matches Some(then) ==> read_at.nanos
                >= then.nanos;
            &&& upkeep.linked ==> !all.contains(Request::CreateLink)
            &&& upkeep.linked ==> (all.contains(Request::StartLink) <==> !world.link_running && due)
            &&& upkeep.linked ==> (all.contains(Request::Draw) <==> !world.link_running_after)
            &&& !upkeep.linked && upkeep.display_link_retry_at is None ==> all.contains(
                Request::CreateLink,
            )
            &&& !upkeep.linked && all.contains(Request::CreateLink) ==> (all.contains(
                Request::StartLink,
            ) <==> world.create_refused is None)
            &&& !upkeep.linked && !all.contains(Request::CreateLink) ==> all.contains(Request::Draw)
                && !all.contains(Request::StartLink)
        }),
{
    lemma_all_contains(upkeep, world, now, Request::CreateLink);
    lemma_all_contains(upkeep, world, now, Request::StartLink);
    lemma_all_contains(upkeep, world, now, Request::Draw);
}

/// An inactive display is neither placed, ordered front nor drawn, and no display link is made
/// or started for it. A link that runs is stopped, and a window that was ordered front is taken
/// off the screen.
pub proof fn law_inactive_displays_are_put_away(upkeep: Upkeep, world: World, now: Instant)
    requires
        !world.active,
    ensures
        ({
            let all = requests(upkeep.maintains(now), world);
            &&& !all.contains(Request::Place)
            &&& !all.contains(Request::OrderFront)
            &&& !all.contains(Request::Draw)
            &&& !all.contains(Request::CreateLink)
            &&& !all.contains(Request::StartLink)
            &&& all.contains(Request::StopLink) <==> upkeep.linked && world.link_running
            &&& all.contains(Request::OrderOut) <==> upkeep.ordered
        }),
{
    lemma_all_contains(upkeep, world, now, Request::Place);
    lemma_all_contains(upkeep, world, now, Request::OrderFront);
    lemma_all_contains(upkeep, world, now, Request::Draw);
    lemma_all_contains(upkeep, world, now, Request::CreateLink);
    lemma_all_contains(upkeep, world, now, Request::StartLink);
    lemma_all_contains(upkeep, world, now, Request::StopLink);
    lemma_all_contains(upkeep, world, now, Request::OrderOut);
}

/// That the window was dropped is reported with the first of a row of attempts to order it
/// front, until it is seen again. A window that was ordered front is known to be, from when on.
pub proof fn law_dropped_windows_are_reported_once(upkeep: Upkeep, world: World, now: Instant)
    requires
        world.active,
    ensures
        ({
            let all = requests(upkeep.maintains(now), world);
            let after = outcome(upkeep.maintains(now).upkeep, world);
            let orders = all.contains(Request::OrderFront);
            let seen = world.visible && world.unoccluded;
            &&& all.contains(Request::Report(Notice::NotVisible)) <==> orders
                && !upkeep.ordering_retry_logged
            &&& seen ==> !after.ordering_retry_logged
            &&& orders ==> after.ordering_retry_logged && after.ordered && after.ordered_at == Some(
                (world.clock)(Stage::OrderedFront),
            )
            &&& !orders ==> after.ordered == upkeep.ordered && after.ordered_at == upkeep.ordered_at
            &&& !orders && !seen ==> after.ordering_retry_logged == upkeep.ordering_retry_logged
        }),
{
    lemma_all_contains(upkeep, world, now, Request::OrderFront);
    lemma_all_contains(upkeep, world, now, Request::Report(Notice::NotVisible));
    law_maintain(upkeep, world, now);
}

/// There is a display link once one was created without being refused, and no sooner.
pub proof fn law_links_come_from_creation(upkeep: Upkeep, world: World, now: Instant)
    ensures
        outcome(upkeep.maintains(now).upkeep, world).linked <==> upkeep.linked || requests(
            upkeep.maintains(now),
            world,
        ).contains(Request::CreateLink) && world.create_refused is None,
{
    lemma_all_contains(upkeep, world, now, Request::CreateLink);
    law_maintain(upkeep, world, now);
}

/// Secure input is looked at whenever the last look is a second old, whether or not the display
/// is active, and what was seen is known afterwards.
pub proof fn law_secure_input_is_watched(upkeep: Upkeep, world: World, now: Instant)
    ensures
        ({
            let all = requests(upkeep.maintains(now), world);
            let after = outcome(upkeep.maintains(now).upkeep, world);
            let recent = upkeep.secure_input_checked_at matches Some(then) && now.nanos
                - then.nanos < 1_000 * 1_000_000;
            &&& all.contains(Request::ReadSecureInput) <==> !recent
            &&& !recent ==> after.secure_input_enabled == world.secure_input
                && after.secure_input_checked_at == Some(now)
            &&& recent ==> after.secure_input_enabled == upkeep.secure_input_enabled
                && after.secure_input_checked_at == upkeep.secure_input_checked_at
        }),
{
    lemma_all_contains(upkeep, world, now, Request::ReadSecureInput);
    law_maintain(upkeep, world, now);
}

/// A display at rest is left with no window on screen and no record of failures, but with
/// its display link, and with the memory of when that was last tried.
pub proof fn law_rest_starts_afresh(upkeep: Upkeep, world: World, now: Instant)
    requires
        !world.active,
    ensures
        ({
            let after = outcome(upkeep.maintains(now).upkeep, world);
            &&& !after.ordered
            &&& !after.degraded_logged
            &&& after.display_link_retry_at == upkeep.display_link_retry_at
            &&& after.linked == upkeep.linked
        }),
{
    law_maintain(upkeep, world, now);
}

} // verus!
