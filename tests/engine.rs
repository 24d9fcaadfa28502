use std::time::Duration;

use wait_file_created::engine::{Action, Failure, Outcome, Phase};
use wait_file_created::watch::{WatchEvent, CLOSE_WRITE, CREATE, IGNORED, MOVED_TO};
use wait_file_created::{AccessMode, Options};

type Reason = &'static str;

fn path() -> Vec<u8> {
    b"/tmp/w/test".to_vec()
}

fn signal() -> Outcome<Reason> {
    Outcome::Events(vec![WatchEvent { mask: CLOSE_WRITE, name: Some(path()) }])
}

fn plain() -> Options {
    Options::with_open_options(AccessMode::read_only())
}

fn robust() -> Options {
    plain().retry_on_fluke(true).polling_fallback_interval(Duration::from_secs(2))
}

/// Runs the outcomes through the engine from its start, returning the last phase and
/// every action asked for.
fn run(opts: &Options, outcomes: Vec<Outcome<Reason>>) -> (Phase<Reason>, Vec<Action<Reason>>) {
    let (mut phase, first) = Phase::start(opts);
    let mut actions = vec![first];
    for o in outcomes {
        let (p, a) = phase.step(opts, &path(), o);
        phase = p;
        actions.push(a);
    }
    (phase, actions)
}

#[test]
fn start_subscribes_with_mask() {
    let (p, a) = Phase::<Reason>::start(&plain());
    assert!(matches!(p, Phase::Subscribing));
    assert!(matches!(a, Action::Subscribe { mask: 0x488 }));
    let (_, a) = Phase::<Reason>::start(&plain().assume_create_is_atomic(true));
    assert!(matches!(a, Action::Subscribe { mask: 0x588 }));
}

#[test]
fn file_already_there_is_returned() {
    let (p, a) = run(&plain(), vec![Outcome::Subscribed, Outcome::Opened]);
    assert!(matches!(p, Phase::Finished));
    assert!(matches!(a[1], Action::Open));
    assert!(matches!(a[2], Action::Return));
}

#[test]
fn first_missing_is_tolerated_then_signal_opens() {
    let (p, a) = run(
        &plain(),
        vec![Outcome::Subscribed, Outcome::Missing("absent"), signal(), Outcome::Opened],
    );
    assert!(matches!(a[2], Action::ReadEvents));
    assert!(matches!(a[3], Action::Open));
    assert!(matches!(a[4], Action::Return));
    assert!(matches!(p, Phase::Finished));
}

#[test]
fn quiet_batch_keeps_waiting_without_open() {
    let quiet = Outcome::Events(vec![WatchEvent { mask: MOVED_TO, name: Some(b"/tmp/w/other".to_vec()) }]);
    let (p, a) = run(&plain(), vec![Outcome::Subscribed, Outcome::Missing("absent"), quiet]);
    assert!(matches!(a[3], Action::ReadEvents));
    assert!(matches!(p, Phase::Waiting));
    assert!(p.holds_watch());
}

#[test]
fn fluke_without_retry_is_missing_error() {
    let (p, a) = run(
        &plain(),
        vec![Outcome::Subscribed, Outcome::Missing("first"), signal(), Outcome::Missing("gone")],
    );
    assert!(matches!(p, Phase::Finished));
    assert!(matches!(a[4], Action::Fail(Failure::Error("gone"))));
}

#[test]
fn fluke_with_retry_opens_second_occupant() {
    let (p, a) = run(
        &robust(),
        vec![
            Outcome::Subscribed,
            Outcome::Missing("first"),
            signal(),
            Outcome::Missing("gone"),
            signal(),
            Outcome::Opened,
        ],
    );
    assert!(matches!(a[4], Action::ReadEvents));
    assert!(matches!(a[5], Action::Open));
    assert!(matches!(a[6], Action::Return));
    assert!(matches!(p, Phase::Finished));
}

#[test]
fn other_open_error_is_returned_verbatim() {
    let (_, a) = run(&robust(), vec![Outcome::Subscribed, Outcome::OpenFailed("denied")]);
    assert!(matches!(a[2], Action::Fail(Failure::Error("denied"))));
}

#[test]
fn polling_fallback_sleeps_one_interval_then_opens() {
    let (p, a) = run(
        &robust(),
        vec![
            Outcome::SubscribeFailed("no watch"),
            Outcome::Missing("absent"),
            Outcome::Slept,
            Outcome::Missing("absent"),
            Outcome::Slept,
            Outcome::Opened,
        ],
    );
    assert!(matches!(a[1], Action::Open));
    assert!(matches!(a[2], Action::Sleep(d) if d == Duration::from_secs(2)));
    assert!(matches!(a[3], Action::Open));
    assert!(matches!(a[4], Action::Sleep(d) if d == Duration::from_secs(2)));
    assert!(matches!(a[6], Action::Return));
    assert!(matches!(p, Phase::Finished));
}

#[test]
fn no_polling_fails_with_subscription_error() {
    let (p, a) = run(&plain(), vec![Outcome::SubscribeFailed("no watch"), Outcome::Missing("absent")]);
    assert!(matches!(a[2], Action::Fail(Failure::Error("no watch"))));
    assert!(matches!(p, Phase::Finished));
}

#[test]
fn no_polling_still_opens_existing_file() {
    let (_, a) = run(&plain(), vec![Outcome::SubscribeFailed("no watch"), Outcome::Opened]);
    assert!(matches!(a[2], Action::Return));
}

#[test]
fn read_failure_falls_back_to_polling() {
    let (p, a) = run(
        &plain(),
        vec![Outcome::Subscribed, Outcome::Missing("absent"), Outcome::ReadFailed("read"), Outcome::Missing("absent")],
    );
    assert!(matches!(a[3], Action::Open));
    assert!(matches!(a[4], Action::Fail(Failure::Error("read"))));
    assert!(matches!(p, Phase::Finished));
}

#[test]
fn invalidation_falls_back_as_not_found() {
    let torn = Outcome::Events(vec![WatchEvent { mask: IGNORED, name: None }]);
    let (p, a) = run(&plain(), vec![Outcome::Subscribed, Outcome::Missing("absent"), torn]);
    assert!(matches!(a[3], Action::Open));
    assert!(!p.holds_watch());
    let (_, a) = p.step(&plain(), &path(), Outcome::Missing("absent"));
    assert!(matches!(a, Action::Fail(Failure::NotFound)));
}

#[test]
fn creation_event_signals_open() {
    let opts = plain().assume_create_is_atomic(true);
    let created = Outcome::Events(vec![WatchEvent { mask: CREATE, name: None }]);
    let (_, a) = run(&opts, vec![Outcome::Subscribed, Outcome::Missing("absent"), created, Outcome::Opened]);
    assert!(matches!(a[3], Action::Open));
    assert!(matches!(a[4], Action::Return));
}

#[test]
fn writer_creates_then_closes_is_read() {
    // The reader starts first; the path does not exist, so the subscription fails and
    // the preset's polling finds the file after it is written and closed.
    let (p, a) = run(
        &robust(),
        vec![
            Outcome::SubscribeFailed("absent"),
            Outcome::Missing("absent"),
            Outcome::Slept,
            Outcome::Opened,
        ],
    );
    assert!(matches!(a[2], Action::Sleep(d) if d == Duration::from_secs(2)));
    assert!(matches!(a[4], Action::Return));
    assert!(matches!(p, Phase::Finished));
}

#[test]
fn unanswering_outcome_repeats_pending_action() {
    let (p, a) = run(&plain(), vec![Outcome::Slept]);
    assert!(matches!(p, Phase::Subscribing));
    assert!(matches!(a[1], Action::Subscribe { mask: 0x488 }));
    let (p, a) = run(&plain(), vec![Outcome::Subscribed, Outcome::Missing("absent"), Outcome::Opened]);
    assert!(matches!(p, Phase::Waiting));
    assert!(matches!(a[3], Action::ReadEvents));
}

#[test]
fn watch_held_only_while_subscribed() {
    assert!(!Phase::<Reason>::Subscribing.holds_watch());
    assert!(Phase::<Reason>::Checking { tolerate_missing: true }.holds_watch());
    assert!(Phase::<Reason>::Waiting.holds_watch());
    assert!(!Phase::<Reason>::Polling { cause: Failure::NotFound }.holds_watch());
    assert!(!Phase::<Reason>::Finished.holds_watch());
}
