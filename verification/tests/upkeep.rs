use dictation_indicator::event::DictationIndicatorEvent;
use dictation_indicator::time::Instant;
use dictation_indicator::upkeep::{Notice, Reply, Request, Upkeep};

use Reply::{Answer, Refused};

fn at(millis: u128) -> Instant {
    Instant { nanos: millis * 1_000_000 }
}

struct World {
    secure_input: bool,
    active: bool,
    visible: bool,
    unoccluded: bool,
    running: bool,
    refused: Option<i32>,
}

fn calm() -> World {
    World {
        secure_input: false,
        active: true,
        visible: true,
        unoccluded: true,
        running: false,
        refused: None,
    }
}

/// Runs a routine to its end, in a world where a started link runs.
fn run(upkeep: &mut Upkeep, first: Request, world: &mut World, now: Instant) -> Vec<Request> {
    let mut requests = vec![first];
    let mut request = first;
    while request != Request::Done {
        let reply = match request {
            Request::ReadSecureInput => Answer(world.secure_input),
            Request::ReadActivity => Answer(world.active),
            Request::ReadLinkRunning => Answer(world.running),
            Request::ReadWindow => Reply::Window {
                visible: world.visible,
                unoccluded: world.unoccluded,
            },
            Request::CreateLink | Request::StartLink => match world.refused {
                Some(status) => Refused { status },
                None => {
                    world.running = request == Request::StartLink;
                    Reply::Done
                }
            },
            Request::StopLink => {
                world.running = false;
                Reply::Done
            }
            _ => Reply::Done,
        };
        request = upkeep.resume(reply, now);
        requests.push(request);
    }
    requests
}

fn maintain(upkeep: &mut Upkeep, world: &mut World, millis: u128) -> Vec<Request> {
    let first = upkeep.begin_maintain(at(millis));
    run(upkeep, first, world, at(millis))
}

fn created(world: &mut World) -> Upkeep {
    let mut upkeep = Upkeep::new();
    let first = upkeep.begin_create(at(0));
    run(&mut upkeep, first, world, at(0));
    upkeep
}

#[test]
fn creation_brings_the_link_up() {
    let mut upkeep = Upkeep::new();
    let first = upkeep.begin_create(at(0));
    assert_eq!(
        run(&mut upkeep, first, &mut calm(), at(0)),
        [Request::CreateLink, Request::StartLink, Request::Place, Request::Done]
    );
    assert!(upkeep.linked);
    assert_eq!(upkeep.display_link_retry_at, Some(at(1_000)));
}

#[test]
fn a_refused_link_is_reported_once_and_retried_later() {
    let mut world = calm();
    world.refused = Some(-6661);
    let mut upkeep = Upkeep::new();
    let first = upkeep.begin_create(at(0));
    assert_eq!(
        run(&mut upkeep, first, &mut world, at(0)),
        [
            Request::CreateLink,
            Request::Report(Notice::LinkUnavailable { status: -6661 }),
            Request::Place,
            Request::Done
        ]
    );
    let attempts = |requests: &[Request]| {
        requests.iter().filter(|request| **request == Request::CreateLink).count()
    };
    assert_eq!(attempts(&maintain(&mut upkeep, &mut world, 999)), 0);
    let requests = maintain(&mut upkeep, &mut world, 1_000);
    assert_eq!(attempts(&requests), 1);
    assert!(!requests.contains(&Request::Report(Notice::LinkUnavailable { status: -6661 })));
    assert!(requests.contains(&Request::Draw));
    world.refused = None;
    let requests = maintain(&mut upkeep, &mut world, 2_000);
    assert!(requests.contains(&Request::Report(Notice::LinkRecovered)));
    assert!(!requests.contains(&Request::Draw));
    assert!(!upkeep.degraded_logged);
}

#[test]
fn rest_does_not_hasten_the_next_attempt() {
    let mut world = calm();
    world.refused = Some(-6661);
    let mut upkeep = created(&mut world);
    assert_eq!(upkeep.display_link_retry_at, Some(at(1_000)));
    let mut attempts = Vec::new();
    for millis in 0..2_500 {
        world.active = millis % 2 == 1;
        if maintain(&mut upkeep, &mut world, millis).contains(&Request::CreateLink) {
            attempts.push(millis);
        }
    }
    assert_eq!(attempts, [1_001, 2_001]);
}

#[test]
fn a_stopped_link_waits_for_its_turn() {
    let mut world = calm();
    let mut upkeep = created(&mut world);
    world.active = false;
    assert!(maintain(&mut upkeep, &mut world, 100).contains(&Request::StopLink));
    world.active = true;
    let requests = maintain(&mut upkeep, &mut world, 999);
    assert!(!requests.contains(&Request::StartLink));
    assert!(requests.contains(&Request::Draw));
    assert!(maintain(&mut upkeep, &mut world, 1_000).contains(&Request::StartLink));
}

#[test]
fn an_active_display_is_attended_to() {
    let mut world = calm();
    let mut upkeep = created(&mut world);
    assert_eq!(
        maintain(&mut upkeep, &mut world, 100),
        [
            Request::ReadSecureInput,
            Request::ReadActivity,
            Request::Place,
            Request::ReadWindow,
            Request::ReadLinkRunning,
            Request::ReadLinkRunning,
            Request::Done
        ]
    );
    world.running = false;
    assert_eq!(
        maintain(&mut upkeep, &mut world, 200),
        [
            Request::ReadActivity,
            Request::Place,
            Request::ReadWindow,
            Request::ReadLinkRunning,
            Request::ReadLinkRunning,
            Request::Draw,
            Request::Done
        ]
    );
}

#[test]
fn a_dropped_window_is_ordered_front() {
    let mut world = calm();
    let mut upkeep = created(&mut world);
    world.unoccluded = false;
    let requests = maintain(&mut upkeep, &mut world, 100);
    assert!(requests.contains(&Request::OrderFront));
    assert!(requests.contains(&Request::Report(Notice::NotVisible)));
    assert_eq!(upkeep.ordered_at, Some(at(100)));
    assert!(!maintain(&mut upkeep, &mut world, 349).contains(&Request::OrderFront));
    let requests = maintain(&mut upkeep, &mut world, 350);
    assert!(requests.contains(&Request::OrderFront));
    assert!(!requests.contains(&Request::Report(Notice::NotVisible)));
    world.unoccluded = true;
    maintain(&mut upkeep, &mut world, 400);
    assert!(!upkeep.ordering_retry_logged);
}

#[test]
fn an_inactive_display_is_put_to_rest() {
    let mut world = calm();
    let mut upkeep = created(&mut world);
    let first = upkeep.begin_show(&DictationIndicatorEvent::Started);
    run(&mut upkeep, first, &mut world, at(10));
    world.active = false;
    assert_eq!(
        maintain(&mut upkeep, &mut world, 100),
        [
            Request::ReadSecureInput,
            Request::ReadActivity,
            Request::ReadLinkRunning,
            Request::StopLink,
            Request::OrderOut,
            Request::Done
        ]
    );
    assert!(!upkeep.ordered);
    assert!(upkeep.linked);
    assert_eq!(upkeep.display_link_retry_at, Some(at(1_000)));
    assert_eq!(
        maintain(&mut upkeep, &mut world, 200),
        [Request::ReadActivity, Request::ReadLinkRunning, Request::Done]
    );
}

#[test]
fn a_start_shows_the_display() {
    let mut world = calm();
    let mut upkeep = created(&mut world);
    let first = upkeep.begin_show(&DictationIndicatorEvent::EditingStarted);
    assert_eq!(
        run(&mut upkeep, first, &mut world, at(10)),
        [
            Request::Place,
            Request::OrderFront,
            Request::ReadWindow,
            Request::Report(Notice::Shown),
            Request::Done
        ]
    );
    assert_eq!(upkeep.ordered_at, Some(at(10)));
    world.visible = false;
    let first = upkeep.begin_show(&DictationIndicatorEvent::Started);
    assert_eq!(
        run(&mut upkeep, first, &mut world, at(20)),
        [
            Request::Place,
            Request::OrderFront,
            Request::ReadWindow,
            Request::OrderFront,
            Request::Report(Notice::OrderedAgain),
            Request::Report(Notice::Shown),
            Request::Done
        ]
    );
    assert_eq!(upkeep.begin_show(&DictationIndicatorEvent::Discarded), Request::Done);
}

#[test]
fn secure_input_is_polled_coarsely_and_reported_on_change() {
    let mut world = calm();
    let mut upkeep = created(&mut world);
    world.secure_input = true;
    let requests = maintain(&mut upkeep, &mut world, 0);
    assert_eq!(requests[1], Request::Report(Notice::SecureInputEngaged));
    world.secure_input = false;
    assert!(!maintain(&mut upkeep, &mut world, 999).contains(&Request::ReadSecureInput));
    let requests = maintain(&mut upkeep, &mut world, 1_000);
    assert_eq!(requests[0], Request::ReadSecureInput);
    assert_eq!(requests[1], Request::Report(Notice::SecureInputReleased));
    let requests = maintain(&mut upkeep, &mut world, 2_000);
    assert_eq!(requests[0], Request::ReadSecureInput);
    assert_eq!(requests[1], Request::ReadActivity);
}

#[test]
fn a_link_that_does_not_start_is_kept_and_started_again() {
    let mut world = calm();
    let mut upkeep = Upkeep::new();
    assert_eq!(upkeep.begin_create(at(0)), Request::CreateLink);
    assert_eq!(upkeep.resume(Reply::Done, at(0)), Request::StartLink);
    assert_eq!(
        upkeep.resume(Refused { status: 7 }, at(0)),
        Request::Report(Notice::LinkUnavailable { status: 7 })
    );
    assert_eq!(upkeep.resume(Reply::Done, at(0)), Request::Place);
    assert_eq!(upkeep.resume(Reply::Done, at(0)), Request::Done);
    assert!(upkeep.linked && upkeep.degraded_logged);
    let requests = maintain(&mut upkeep, &mut world, 1_500);
    assert!(requests.contains(&Request::StartLink));
    assert!(!requests.contains(&Request::CreateLink));
    assert!(requests.contains(&Request::Report(Notice::LinkRecovered)));
}
