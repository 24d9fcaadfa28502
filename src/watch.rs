//! The change-notification subscription as the wait sees it: which event bits to ask
//! for, and what a delivered batch means. The bits are those of Linux's inotify
//! interface, so that a caller hands masks to and from inotify unchanged.
use vstd::prelude::*;

verus! {

/// Event bit: a file opened for writing was closed.
pub const CLOSE_WRITE: u32 = 0x0000_0008;

/// Event bit: a file was moved into the watched place.
pub const MOVED_TO: u32 = 0x0000_0080;

/// Event bit: a file was created.
pub const CREATE: u32 = 0x0000_0100;

/// Event bit: the watched object itself was removed.
pub const DELETE_SELF: u32 = 0x0000_0400;

/// Event bit: the subscription was torn down.
pub const IGNORED: u32 = 0x0000_8000;

/// One notification as the subscription delivered it: its event bits, and the name
/// of the entry it concerns (none when it concerns the watched object itself).
pub struct WatchEvent {
    pub mask: u32,
    pub name: Option<Vec<u8>>,
}

/// What a batch of notifications means to a waiter.
#[derive(Clone, Copy, Debug, PartialEq, Eq, Structural)]
pub enum Verdict {
    /// The subscription is gone: stop watching.
    Invalidated,
    /// Something happened to the awaited path: try to open it again.
    Signalled,
    /// Nothing that concerns the awaited path: keep waiting.
    Quiet,
}

/// The event bits to subscribe to: completion of a write, a move into place and the
/// removal of the watched object, and also creation when creation is atomic.
pub open spec fn mask_spec(create_is_atomic: bool) -> u32 {
    if create_is_atomic {
        CLOSE_WRITE | MOVED_TO | DELETE_SELF | CREATE
    } else {
        CLOSE_WRITE | MOVED_TO | DELETE_SELF
    }
}

/// The subscription always asks for write completion, moves into place and removal of
/// the watched object, never for anything else than creation besides, and asks for
/// creation exactly when creation is atomic.
pub proof fn lemma_mask_bits(create_is_atomic: bool)
    ensures
        mask_spec(create_is_atomic) & CLOSE_WRITE != 0,
        mask_spec(create_is_atomic) & MOVED_TO != 0,
        mask_spec(create_is_atomic) & DELETE_SELF != 0,
        (mask_spec(create_is_atomic) & CREATE != 0) == create_is_atomic,
        mask_spec(create_is_atomic) & IGNORED == 0,
{
    assert((0x8u32 | 0x80u32 | 0x400u32 | 0x100u32) == 0x588u32) by (bit_vector);
    assert((0x8u32 | 0x80u32 | 0x400u32) == 0x488u32) by (bit_vector);
    assert(0x588u32 & 0x8u32 != 0 && 0x588u32 & 0x80u32 != 0 && 0x588u32 & 0x400u32 != 0
        && 0x588u32 & 0x100u32 != 0 && 0x588u32 & 0x8000u32 == 0) by (bit_vector);
    assert(0x488u32 & 0x8u32 != 0 && 0x488u32 & 0x80u32 != 0 && 0x488u32 & 0x400u32 != 0
        && 0x488u32 & 0x100u32 == 0 && 0x488u32 & 0x8000u32 == 0) by (bit_vector);
}

/// The event tears the subscription down.
pub open spec fn invalidates(e: WatchEvent) -> bool {
    e.mask & IGNORED != 0
}

/// The event concerns the awaited path: it names it, or it names nothing and so
/// concerns the watched object itself.
pub open spec fn concerns(e: WatchEvent, path: Seq<u8>) -> bool {
    match e.name {
        Some(n) => n@ == path,
        None => true,
    }
}

/// Some event of the batch tears the subscription down.
pub open spec fn batch_invalidated(batch: Seq<WatchEvent>) -> bool {
    exists|i: int| 0 <= i < batch.len() && #[trigger] invalidates(batch[i])
}

/// Some event of the batch concerns the awaited path.
pub open spec fn batch_concerns(batch: Seq<WatchEvent>, path: Seq<u8>) -> bool {
    exists|i: int| 0 <= i < batch.len() && #[trigger] concerns(batch[i], path)
}

/// What a batch means: invalidation wins over everything else in it.
pub open spec fn verdict_spec(batch: Seq<WatchEvent>, path: Seq<u8>) -> Verdict {
    if batch_invalidated(batch) {
        Verdict::Invalidated
    } else if batch_concerns(batch, path) {
        Verdict::Signalled
    } else {
        Verdict::Quiet
    }
}

/// The event bits to subscribe to for a wait.
pub fn watch_mask(create_is_atomic: bool) -> (r: u32)
    ensures
        r == mask_spec(create_is_atomic),
        r & CLOSE_WRITE != 0,
        r & MOVED_TO != 0,
        r & DELETE_SELF != 0,
        (r & CREATE != 0) == create_is_atomic,
        r & IGNORED == 0,
{
    proof {
        lemma_mask_bits(create_is_atomic);
    }
    if create_is_atomic {
        CLOSE_WRITE | MOVED_TO | DELETE_SELF | CREATE
    } else {
        CLOSE_WRITE | MOVED_TO | DELETE_SELF
    }
}

/// Whether two byte strings are equal.
fn same_bytes(a: &Vec<u8>, b: &Vec<u8>) -> (r: bool)
    ensures
        r == (a@ == b@),
{
    if a.len() != b.len() {
        return false;
    }
    let mut i: usize = 0;
    while i < a.len()
        invariant
            a@.len() == b@.len(),
            i <= a@.len(),
            forall|j: int| 0 <= j < i ==> a@[j] == b@[j],
        decreases a@.len() - i,
    {
        if a[i] != b[i] {
            return false;
        }
        i = i + 1;
    }
    assert(a@ =~= b@);
    true
}

impl WatchEvent {
    /// Whether this event tears the subscription down.
    pub fn is_invalidation(&self) -> (r: bool)
        ensures
            r == invalidates(*self),
    {
        self.mask & IGNORED != 0
    }

    /// Whether this event concerns the awaited path.
    pub fn is_about(&self, path: &Vec<u8>) -> (r: bool)
        ensures
            r == concerns(*self, path@),
    {
        match &self.name {
            Some(n) => same_bytes(n, path),
            None => true,
        }
    }
}

/// Reads a batch of notifications for a wait on `path`.
pub fn classify(batch: &Vec<WatchEvent>, path: &Vec<u8>) -> (r: Verdict)
    ensures
        r == verdict_spec(batch@, path@),
{
    let mut concerned = false;
    let mut i: usize = 0;
    while i < batch.len()
        invariant
            i <= batch@.len(),
            forall|j: int| 0 <= j < i ==> !invalidates(#[trigger] batch@[j]),
            concerned == exists|j: int| 0 <= j < i && #[trigger] concerns(batch@[j], path@),
        decreases batch@.len() - i,
    {
        let e = &batch[i];
        if e.is_invalidation() {
            return Verdict::Invalidated;
        }
        if e.is_about(path) {
            concerned = true;
        }
        i = i + 1;
    }
    if concerned {
        Verdict::Signalled
    } else {
        Verdict::Quiet
    }
}

} // verus!
