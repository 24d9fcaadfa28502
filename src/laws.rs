//! What holds of every run of the protocol, proved over its transition function.
use std::time::Duration;
use vstd::prelude::*;

use crate::engine::{initial, next, watching, Action, Failure, Outcome, Phase};
use crate::options::Options;
use crate::watch::{
    batch_invalidated, concerns, invalidates, lemma_mask_bits, verdict_spec, Verdict, WatchEvent,
    CLOSE_WRITE, CREATE, MOVED_TO,
};

verus! {

/// A wait ends exactly when it returns a file or fails, and a file is returned only
/// right after an open succeeded.
pub proof fn ends_only_by_return_or_failure<E>(
    p: Phase<E>,
    opts: Options,
    path: Seq<u8>,
    o: Outcome<E>,
)
    requires
        !(p is Finished),
    ensures
        next(p, opts, path, o).0 is Finished <==> (next(p, opts, path, o).1 is Return
            || next(p, opts, path, o).1 is Fail),
        next(p, opts, path, o).1 is Return ==> o is Opened,
        !watching(next(p, opts, path, o).0) ==> !(next(p, opts, path, o).1 is ReadEvents),
{
}

/// While waiting, the path is opened again only after a batch that concerns it: a
/// batch that does not keeps the wait on the notifications, and a batch that tears the
/// subscription down drops it and goes on by polling, as if the file were missing.
pub proof fn open_only_after_signal<E>(opts: Options, path: Seq<u8>, batch: Vec<WatchEvent>)
    ensures
        verdict_spec(batch@, path) == Verdict::Quiet ==> next(
            Phase::<E>::Waiting,
            opts,
            path,
            Outcome::Events(batch),
        ) == (Phase::<E>::Waiting, Action::<E>::ReadEvents),
        verdict_spec(batch@, path) == Verdict::Invalidated ==> next(
            Phase::<E>::Waiting,
            opts,
            path,
            Outcome::Events(batch),
        ) == (Phase::<E>::Polling { cause: Failure::NotFound }, Action::<E>::Open),
        next(Phase::<E>::Waiting, opts, path, Outcome::Events(batch)).1 is Open
            <==> verdict_spec(batch@, path) != Verdict::Quiet,
{
}

/// Without fluke tolerance, a file that is signalled and then gone when opened ends
/// the wait with the error of that open, instead of waiting on.
pub proof fn fluke_without_retry_fails<E>(
    opts: Options,
    path: Seq<u8>,
    batch: Vec<WatchEvent>,
    e: E,
)
    requires
        !opts.retries_flukes(),
        verdict_spec(batch@, path) == Verdict::Signalled,
    ensures
        next(Phase::<E>::Waiting, opts, path, Outcome::Events(batch)) == (
            Phase::<E>::Checking { tolerate_missing: false },
            Action::<E>::Open,
        ),
        next(Phase::Checking { tolerate_missing: false }, opts, path, Outcome::Missing(e)) == (
            Phase::<E>::Finished,
            Action::Fail(Failure::Error(e)),
        ),
{
}

/// With fluke tolerance, a file that is signalled and then gone when opened sends the
/// wait back to the notifications, and the next occupant of the path is opened and
/// returned.
pub proof fn fluke_with_retry_opens_next_occupant<E>(
    opts: Options,
    path: Seq<u8>,
    first: Vec<WatchEvent>,
    e: E,
    second: Vec<WatchEvent>,
)
    requires
        opts.retries_flukes(),
        verdict_spec(first@, path) == Verdict::Signalled,
        verdict_spec(second@, path) == Verdict::Signalled,
    ensures
        next(Phase::<E>::Waiting, opts, path, Outcome::Events(first)) == (
            Phase::<E>::Checking { tolerate_missing: true },
            Action::<E>::Open,
        ),
        next(Phase::Checking { tolerate_missing: true }, opts, path, Outcome::Missing(e)) == (
            Phase::<E>::Waiting,
            Action::<E>::ReadEvents,
        ),
        next(Phase::<E>::Waiting, opts, path, Outcome::Events(second)) == (
            Phase::<E>::Checking { tolerate_missing: true },
            Action::<E>::Open,
        ),
        next(Phase::Checking { tolerate_missing: true }, opts, path, Outcome::<E>::Opened) == (
            Phase::<E>::Finished,
            Action::<E>::Return,
        ),
{
}

/// With notifications unavailable and a polling interval, the wait opens the path at
/// once, and while the file is missing sleeps exactly one interval between opens; it
/// returns the file as soon as an open succeeds.
pub proof fn polling_opens_within_one_interval<E>(
    opts: Options,
    path: Seq<u8>,
    e: E,
    cause: Failure<E>,
    missing: E,
    d: Duration,
)
    requires
        opts.polling_interval() == Some(d),
    ensures
        next(Phase::Subscribing, opts, path, Outcome::SubscribeFailed(e)) == (
            Phase::Polling { cause: Failure::Error(e) },
            Action::<E>::Open,
        ),
        next(Phase::Polling { cause }, opts, path, Outcome::Missing(missing)) == (
            Phase::Polling { cause },
            Action::<E>::Sleep(d),
        ),
        next(Phase::Polling { cause }, opts, path, Outcome::Slept) == (
            Phase::Polling { cause },
            Action::<E>::Open,
        ),
        next(Phase::Polling { cause }, opts, path, Outcome::Opened) == (
            Phase::<E>::Finished,
            Action::<E>::Return,
        ),
{
}

/// With notifications unavailable and no polling interval, one open is tried and a
/// missing file fails the wait with the error of the subscription; no sleep is ever
/// asked for.
pub proof fn no_polling_fails_at_once<E>(
    opts: Options,
    path: Seq<u8>,
    e: E,
    missing: E,
    p: Phase<E>,
    o: Outcome<E>,
)
    requires
        opts.polling_interval() is None,
        !(p is Finished),
    ensures
        next(Phase::Subscribing, opts, path, Outcome::SubscribeFailed(e)) == (
            Phase::Polling { cause: Failure::Error(e) },
            Action::<E>::Open,
        ),
        next(Phase::Polling { cause: Failure::Error(e) }, opts, path, Outcome::Missing(missing))
            == (Phase::<E>::Finished, Action::Fail(Failure::Error(e))),
        !(next(p, opts, path, o).1 is Sleep),
{
}

/// The subscription asks for creation events exactly when creation is assumed atomic,
/// and always for the completion of a write and a move into place; a creation event on
/// the awaited path then sends the wait to open it.
pub proof fn creation_signals_when_atomic<E>(
    opts: Options,
    path: Seq<u8>,
    batch: Vec<WatchEvent>,
)
    requires
        batch@.len() == 1,
        batch@[0].mask == CREATE,
        concerns(batch@[0], path),
    ensures
        initial::<E>(opts).1 matches Action::Subscribe { mask } && ((mask & CREATE != 0)
            == opts.creation_is_atomic() && mask & CLOSE_WRITE != 0 && mask & MOVED_TO != 0),
        next(Phase::<E>::Waiting, opts, path, Outcome::Events(batch)) == (
            Phase::<E>::Checking { tolerate_missing: opts.retries_flukes() },
            Action::<E>::Open,
        ),
{
    lemma_mask_bits(opts.creation_is_atomic());
    assert(CREATE & 0x8000u32 == 0) by (bit_vector);
    assert(!invalidates(batch@[0]));
    assert(!batch_invalidated(batch@));
}

} // verus!
