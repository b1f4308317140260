//! The stream lock manager: at most one lent handle per stream identity.
//!
//! Acquisition takes the process-wide mutex for the identity and then the
//! stream's own writer-serialization lock; release gives them back in the
//! opposite order. Holding a [`LentFile`] is the proof of exclusive access
//! that the redirect engine demands. Two distinct locks are involved on
//! purpose: the mutex only serializes this library's callers, while the
//! writer-serialization lock is what keeps ordinary writers, which bypass
//! this library entirely, out of the swap-run-swap window.

use vstd::prelude::*;

use crate::errors::CaptureError;
use crate::stream::StreamId;
use crate::world::{peer, CaptureWorld, LockState, StreamEntry};

verus! {

/// Capability proving exclusive, lock-held access to one stream identity.
/// It can only be produced by acquisition, so a valid handle is the witness
/// that both locks are held by its owner.
pub struct LentFile {
    stream: StreamId,
    owner: u64,
}

/// What a request for the lent handle came back with.
pub enum AcquireOutcome {
    /// Both locks taken; the handle is the capability.
    Acquired(LentFile),
    /// Another owner holds the mutex; the caller blocks until it frees.
    MustWait,
    /// A prior holder failed while holding the mutex. Propagated, never
    /// silently cleared.
    Poisoned,
}

impl AcquireOutcome {
    /// The typed failure this outcome reports, if it is one: a poisoned
    /// mutex surfaces as `LockPoisoned`. Being told to wait is not a
    /// failure, and neither is success.
    pub fn lock_error(&self) -> (r: Option<CaptureError>)
        ensures
            r == if *self is Poisoned {
                Some(CaptureError::LockPoisoned)
            } else {
                None::<CaptureError>
            },
    {
        match self {
            AcquireOutcome::Poisoned => Some(CaptureError::LockPoisoned),
            _ => None,
        }
    }
}

impl LentFile {
    /// The stream identity this handle lends out.
    pub closed spec fn stream_id(self) -> StreamId {
        self.stream
    }

    /// The logical owner (thread) that acquired this handle.
    pub closed spec fn owner_id(self) -> u64 {
        self.owner
    }

    /// The handle is the live capability for its stream in `w`: the mutex is
    /// held by its owner and the writer-serialization lock is taken.
    pub open spec fn valid(self, w: CaptureWorld) -> bool {
        &&& w.entry_of(self.stream_id()).lock is Held
        &&& w.entry_of(self.stream_id()).owner == self.owner_id()
        &&& w.entry_of(self.stream_id()).writer_locked
    }

    /// The stream identity, for callers.
    pub fn stream(&self) -> (id: StreamId)
        ensures
            id == self.stream_id(),
    {
        self.stream
    }

    /// Give the handle back: the writer-serialization lock is released, then
    /// the process-wide mutex, unconditionally and exactly once. Nothing
    /// else about the stream changes — in particular not where it points.
    pub fn release(self, world: &mut CaptureWorld)
        requires
            old(world).wf(),
            self.valid(*old(world)),
        ensures
            release_post(*old(world), *final(world), self),
    {
        let id = self.stream;
        let e = world.entry_mut(id);
        e.writer_locked = false;
        e.lock = LockState::Free;
    }

    /// Record that this handle's holder failed while holding the mutex: the
    /// writer-serialization lock is released during unwinding, but the mutex
    /// is left poisoned so that later acquisitions learn of the failure.
    pub fn mark_poisoned(self, world: &mut CaptureWorld)
        requires
            old(world).wf(),
            self.valid(*old(world)),
        ensures
            final(world).wf(),
            final(world).entry_of(self.stream_id()) == (StreamEntry {
                lock: LockState::Poisoned,
                writer_locked: false,
                ..old(world).entry_of(self.stream_id())
            }),
            final(world).entry_of(peer(self.stream_id())) == old(world).entry_of(
                peer(self.stream_id()),
            ),
            final(world).sinks == old(world).sinks,
    {
        let id = self.stream;
        let e = world.entry_mut(id);
        e.writer_locked = false;
        e.lock = LockState::Poisoned;
    }
}

/// What releasing a handle does: its stream's entry is unlocked, everything
/// else — destinations, buffers, the other stream — is untouched.
pub open spec fn release_post(pre: CaptureWorld, post: CaptureWorld, h: LentFile) -> bool {
    &&& post.wf()
    &&& post.entry_of(h.stream_id()) == (StreamEntry {
        lock: LockState::Free,
        writer_locked: false,
        ..pre.entry_of(h.stream_id())
    })
    &&& post.entry_of(peer(h.stream_id())) == pre.entry_of(peer(h.stream_id()))
    &&& post.sinks == pre.sinks
}

/// What acquisition does, depending on the state the mutex was found in.
pub open spec fn acquire_post(
    pre: CaptureWorld,
    post: CaptureWorld,
    id: StreamId,
    owner: u64,
    r: AcquireOutcome,
) -> bool {
    &&& post.wf()
    &&& match pre.entry_of(id).lock {
        LockState::Poisoned => {
            &&& r is Poisoned
            &&& post == pre
        },
        LockState::Held => {
            &&& r is MustWait
            &&& post == pre
        },
        LockState::Free => {
            &&& r matches AcquireOutcome::Acquired(h)
            &&& h.stream_id() == id
            &&& h.owner_id() == owner
            &&& h.valid(post)
            &&& post.entry_of(id) == (StreamEntry {
                lock: LockState::Held,
                owner: owner,
                writer_locked: true,
                ..pre.entry_of(id)
            })
            &&& post.entry_of(peer(id)) == pre.entry_of(peer(id))
            &&& post.sinks == pre.sinks
        },
    }
}

/// Block until the process-wide mutex for `id` is obtainable, then take the
/// stream's writer-serialization lock and hand out the capability. In this
/// model blocking shows up as `MustWait`: the caller retries when the holder
/// releases. A poisoned mutex is reported, not cleared.
pub fn acquire(world: &mut CaptureWorld, id: StreamId, owner: u64) -> (r: AcquireOutcome)
    requires
        old(world).wf(),
    ensures
        acquire_post(*old(world), *final(world), id, owner, r),
{
    let e = world.entry_mut(id);
    match e.lock {
        LockState::Poisoned => AcquireOutcome::Poisoned,
        LockState::Held => AcquireOutcome::MustWait,
        LockState::Free => {
            e.lock = LockState::Held;
            e.owner = owner;
            e.writer_locked = true;
            AcquireOutcome::Acquired(LentFile { stream: id, owner })
        },
    }
}

/// The lent handle for the standard output stream.
pub fn lent_stdout(world: &mut CaptureWorld, owner: u64) -> (r: AcquireOutcome)
    requires
        old(world).wf(),
    ensures
        acquire_post(*old(world), *final(world), StreamId::StandardOutput, owner, r),
{
    acquire(world, StreamId::StandardOutput, owner)
}

/// The lent handle for the standard error stream.
pub fn lent_stderr(world: &mut CaptureWorld, owner: u64) -> (r: AcquireOutcome)
    requires
        old(world).wf(),
    ensures
        acquire_post(*old(world), *final(world), StreamId::StandardError, owner, r),
{
    acquire(world, StreamId::StandardError, owner)
}

/// Mutual exclusion: two handles that are both live capabilities for the
/// same stream identity in the same world belong to the same owner — a
/// stream can never be lent to two owners at once.
pub proof fn lemma_mutual_exclusion(w: CaptureWorld, h1: LentFile, h2: LentFile)
    requires
        h1.valid(w),
        h2.valid(w),
        h1.stream_id() == h2.stream_id(),
    ensures
        h1.owner_id() == h2.owner_id(),
{
}

/// While a live handle is outstanding, no acquisition of its stream by any
/// owner is granted: the requester is told to wait.
pub proof fn lemma_acquire_excluded(
    pre: CaptureWorld,
    post: CaptureWorld,
    h: LentFile,
    owner: u64,
    r: AcquireOutcome,
)
    requires
        h.valid(pre),
        acquire_post(pre, post, h.stream_id(), owner, r),
    ensures
        r is MustWait,
        post == pre,
{
}

} // verus!
