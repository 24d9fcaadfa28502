//! The wait-then-open protocol as a state machine over phases, outcomes and actions.
use std::time::Duration;
use vstd::prelude::*;

use crate::options::Options;
use crate::watch::{classify, mask_spec, verdict_spec, watch_mask, Verdict, WatchEvent};

verus! {

/// Where a wait stands. The subscription is held exactly in `Checking` and `Waiting`.
pub enum Phase<E> {
    /// The subscription is being set up.
    Subscribing,
    /// Under the subscription, an open is being tried; a missing file is an error
    /// unless `tolerate_missing`.
    Checking { tolerate_missing: bool },
    /// Under the subscription, the next batch of notifications is awaited.
    Waiting,
    /// Without notifications, an open is being tried; `cause` is what to report when
    /// the file is missing and there is no polling interval.
    Polling { cause: Failure<E> },
    /// The wait is over.
    Finished,
}

/// The error a failed wait reports.
pub enum Failure<E> {
    /// An error that an outside operation reported, handed on unchanged.
    Error(E),
    /// The file was not found (the subscription was torn down while waiting for it).
    NotFound,
}

/// What the caller is to do next.
pub enum Action<E> {
    /// Subscribe to these event bits on the path.
    Subscribe { mask: u32 },
    /// Try to open the path with the configured access mode.
    Open,
    /// Block until the next batch of notifications arrives.
    ReadEvents,
    /// Sleep this long, then report `Slept`.
    Sleep(Duration),
    /// Hand the file that was just opened to the caller.
    Return,
    /// Give up with this error.
    Fail(Failure<E>),
}

/// What came of the last action.
pub enum Outcome<E> {
    /// The subscription is in place.
    Subscribed,
    /// The subscription could not be set up.
    SubscribeFailed(E),
    /// The file was opened.
    Opened,
    /// The open found no file.
    Missing(E),
    /// The open failed for another reason.
    OpenFailed(E),
    /// A batch of notifications arrived.
    Events(Vec<WatchEvent>),
    /// Reading notifications failed.
    ReadFailed(E),
    /// The sleep is over.
    Slept,
}

/// The subscription is held in this phase.
pub open spec fn watching<E>(p: Phase<E>) -> bool {
    p is Checking || p is Waiting
}

/// The action a phase waits on; it is asked again when an outcome does not answer it.
pub open spec fn pending<E>(p: Phase<E>, opts: Options) -> Action<E> {
    match p {
        Phase::Subscribing => Action::Subscribe { mask: mask_spec(opts.creation_is_atomic()) },
        Phase::Waiting => Action::ReadEvents,
        _ => Action::Open,
    }
}

/// The first step of a wait.
pub open spec fn initial<E>(opts: Options) -> (Phase<E>, Action<E>) {
    (Phase::Subscribing, Action::Subscribe { mask: mask_spec(opts.creation_is_atomic()) })
}

/// One transition of the protocol, for a wait on `path`.
pub open spec fn next<E>(p: Phase<E>, opts: Options, path: Seq<u8>, o: Outcome<E>) -> (
    Phase<E>,
    Action<E>,
) {
    match (p, o) {
        (Phase::Subscribing, Outcome::Subscribed) => (
            Phase::Checking { tolerate_missing: true },
            Action::Open,
        ),
        (Phase::Subscribing, Outcome::SubscribeFailed(e)) => (
            Phase::Polling { cause: Failure::Error(e) },
            Action::Open,
        ),
        (Phase::Checking { .. }, Outcome::Opened) => (Phase::Finished, Action::Return),
        (Phase::Checking { tolerate_missing }, Outcome::Missing(e)) => if tolerate_missing {
            (Phase::Waiting, Action::ReadEvents)
        } else {
            (Phase::Finished, Action::Fail(Failure::Error(e)))
        },
        (Phase::Checking { .. }, Outcome::OpenFailed(e)) => (
            Phase::Finished,
            Action::Fail(Failure::Error(e)),
        ),
        (Phase::Waiting, Outcome::Events(b)) => match verdict_spec(b@, path) {
            Verdict::Invalidated => (Phase::Polling { cause: Failure::NotFound }, Action::Open),
            Verdict::Signalled => (
                Phase::Checking { tolerate_missing: opts.retries_flukes() },
                Action::Open,
            ),
            Verdict::Quiet => (Phase::Waiting, Action::ReadEvents),
        },
        (Phase::Waiting, Outcome::ReadFailed(e)) => (
            Phase::Polling { cause: Failure::Error(e) },
            Action::Open,
        ),
        (Phase::Polling { .. }, Outcome::Opened) => (Phase::Finished, Action::Return),
        (Phase::Polling { cause }, Outcome::Missing(_)) => match opts.polling_interval() {
            Some(d) => (Phase::Polling { cause }, Action::Sleep(d)),
            None => (Phase::Finished, Action::Fail(cause)),
        },
        (Phase::Polling { .. }, Outcome::OpenFailed(e)) => (
            Phase::Finished,
            Action::Fail(Failure::Error(e)),
        ),
        (p, _) => (p, pending(p, opts)),
    }
}

impl<E> Phase<E> {
    /// Starts a wait: the first phase and the first action.
    pub fn start(opts: &Options) -> (r: (Phase<E>, Action<E>))
        ensures
            r == initial::<E>(*opts),
    {
        (Phase::Subscribing, Action::Subscribe { mask: watch_mask(opts.create_is_atomic()) })
    }

    /// Whether the subscription is held in this phase; once it is not, it is released.
    pub fn holds_watch(&self) -> (r: bool)
        ensures
            r == watching(*self),
    {
        match self {
            Phase::Checking { .. } | Phase::Waiting => true,
            _ => false,
        }
    }

    /// Takes what came of the last action on a wait for `path`, and gives the next
    /// phase and the next action.
    pub fn step(self, opts: &Options, path: &Vec<u8>, outcome: Outcome<E>) -> (r: (
        Phase<E>,
        Action<E>,
    ))
        requires
            !(self is Finished),
        ensures
            r == next(self, *opts, path@, outcome),
    {
        match self {
            Phase::Subscribing => match outcome {
                Outcome::Subscribed => (Phase::Checking { tolerate_missing: true }, Action::Open),
                Outcome::SubscribeFailed(e) => (
                    Phase::Polling { cause: Failure::Error(e) },
                    Action::Open,
                ),
                _ => (Phase::Subscribing, Action::Subscribe { mask: watch_mask(opts.create_is_atomic()) }),
            },
            Phase::Checking { tolerate_missing } => match outcome {
                Outcome::Opened => (Phase::Finished, Action::Return),
                Outcome::Missing(e) => if tolerate_missing {
                    (Phase::Waiting, Action::ReadEvents)
                } else {
                    (Phase::Finished, Action::Fail(Failure::Error(e)))
                },
                Outcome::OpenFailed(e) => (Phase::Finished, Action::Fail(Failure::Error(e))),
                _ => (Phase::Checking { tolerate_missing }, Action::Open),
            },
            Phase::Waiting => match outcome {
                Outcome::Events(batch) => match classify(&batch, path) {
                    Verdict::Invalidated => (Phase::Polling { cause: Failure::NotFound }, Action::Open),
                    Verdict::Signalled => (
                        Phase::Checking { tolerate_missing: opts.retries_on_fluke() },
                        Action::Open,
                    ),
                    Verdict::Quiet => (Phase::Waiting, Action::ReadEvents),
                },
                Outcome::ReadFailed(e) => (Phase::Polling { cause: Failure::Error(e) }, Action::Open),
                _ => (Phase::Waiting, Action::ReadEvents),
            },
            Phase::Polling { cause } => match outcome {
                Outcome::Opened => (Phase::Finished, Action::Return),
                Outcome::Missing(_) => match opts.polling_fallback() {
                    Some(d) => (Phase::Polling { cause }, Action::Sleep(d)),
                    None => (Phase::Finished, Action::Fail(cause)),
                },
                Outcome::OpenFailed(e) => (Phase::Finished, Action::Fail(Failure::Error(e))),
                _ => (Phase::Polling { cause }, Action::Open),
            },
            Phase::Finished => (Phase::Finished, Action::Return),
        }
    }
}

} // verus!
