//! The model of the two process-wide stream resources and of the
//! destinations their output reaches.
//!
//! A [`CaptureWorld`] is a fixed two-entry table, one entry per stream
//! identity, holding that stream's lock state, its buffered bytes and the
//! destination it currently points at, together with every destination
//! (sink) that bytes can reach. Destinations are numbered, as OS descriptors
//! are; entry `original` is the destination the stream was bound to at
//! startup, and that binding never changes.

use vstd::prelude::*;

use crate::stream::StreamId;

verus! {

/// State of the process-wide mutex guarding one stream identity.
#[derive(Clone, Copy, PartialEq, Eq, Structural, Debug)]
pub enum LockState {
    /// Nobody holds the mutex.
    Free,
    /// A lent handle is outstanding.
    Held,
    /// A prior holder failed while holding the mutex; stream state integrity
    /// is no longer asserted, and acquisition reports this instead of
    /// silently clearing it.
    Poisoned,
}

/// One output destination: the bytes it has received so far, and whether its
/// write end is still open. Draining a destination to completion is only
/// possible once its write end has closed.
#[verifier::ext_equal]
pub struct Sink {
    pub data: Vec<u8>,
    pub write_open: bool,
}

/// Per-stream-identity state: the lock manager's part (mutex, owner, the
/// stream's own writer-serialization lock) and the stream resource's part
/// (buffered bytes, current and original destination).
#[verifier::ext_equal]
pub struct StreamEntry {
    /// The process-wide mutex for this stream identity.
    pub lock: LockState,
    /// Which logical owner holds the mutex; meaningful only while `lock` is
    /// `Held`.
    pub owner: u64,
    /// Whether the stream's own writer-serialization lock is held by the
    /// lent-handle holder. Ordinary writers that bypass this system block on
    /// it.
    pub writer_locked: bool,
    /// The destination the stream was bound to at process start.
    pub original: usize,
    /// The destination the stream currently points at.
    pub target: usize,
    /// Bytes written to the stream but not yet flushed to `target`.
    pub buffer: Vec<u8>,
}

/// The whole model: the two stream entries and every known destination.
#[verifier::ext_equal]
pub struct CaptureWorld {
    pub stdout_entry: StreamEntry,
    pub stderr_entry: StreamEntry,
    pub sinks: Vec<Sink>,
}

/// The outcome of an ordinary (non-capturing) write: either it went through,
/// or the writer must wait because a capture session holds the stream's
/// writer-serialization lock.
#[derive(Clone, Copy, PartialEq, Eq, Structural, Debug)]
pub enum WriteOutcome {
    Done,
    MustWait,
}

/// The stream identity other than `id`.
pub open spec fn peer(id: StreamId) -> StreamId {
    match id {
        StreamId::StandardOutput => StreamId::StandardError,
        StreamId::StandardError => StreamId::StandardOutput,
    }
}

/// Append every byte of `src` to `dst`.
pub fn append_bytes(dst: &mut Vec<u8>, src: &Vec<u8>)
    ensures
        final(dst)@ == old(dst)@ + src@,
{
    let n = src.len();
    let mut i: usize = 0;
    while i < n
        invariant
            i <= n,
            n == src.len(),
            dst@ == old(dst)@ + src@.subrange(0, i as int),
        decreases n - i,
    {
        dst.push(src[i]);
        proof {
            assert(dst@ =~= old(dst)@ + src@.subrange(0, i + 1 as int));
        }
        i = i + 1;
    }
    proof {
        assert(final(dst)@ =~= old(dst)@ + src@);
    }
}

impl CaptureWorld {
    /// The table entry for `id`.
    pub open spec fn entry_of(self, id: StreamId) -> StreamEntry {
        match id {
            StreamId::StandardOutput => self.stdout_entry,
            StreamId::StandardError => self.stderr_entry,
        }
    }

    /// How many destinations exist.
    pub open spec fn n_sinks(self) -> int {
        self.sinks.len() as int
    }

    /// The bytes destination `d` has received.
    pub open spec fn sink_data(self, d: int) -> Seq<u8> {
        self.sinks[d].data@
    }

    /// Whether destination `d`'s write end is still open.
    pub open spec fn sink_open(self, d: int) -> bool {
        self.sinks[d].write_open
    }

    /// Whether `d` is the startup destination of either stream.
    pub open spec fn is_original(self, d: int) -> bool {
        ||| self.entry_of(StreamId::StandardOutput).original == d
        ||| self.entry_of(StreamId::StandardError).original == d
    }

    /// Well-formedness of one entry: its destinations exist, its startup
    /// destination never closes, and the writer-serialization lock is held
    /// exactly while the process-wide mutex is.
    pub open spec fn entry_wf(self, id: StreamId) -> bool {
        let e = self.entry_of(id);
        &&& e.original < self.sinks.len()
        &&& e.target < self.sinks.len()
        &&& self.sinks[e.original as int].write_open
        &&& e.writer_locked == (e.lock is Held)
    }

    /// Well-formedness of the whole model. The two streams are bound to
    /// distinct startup destinations.
    pub open spec fn wf(self) -> bool {
        &&& self.entry_wf(StreamId::StandardOutput)
        &&& self.entry_wf(StreamId::StandardError)
        &&& self.entry_of(StreamId::StandardOutput).original != self.entry_of(
            StreamId::StandardError,
        ).original
    }

    /// The fixed table, initialized once at startup: both streams unlocked,
    /// empty buffers, each pointing at its own startup destination.
    pub fn new() -> (w: CaptureWorld)
        ensures
            w.wf(),
            w.n_sinks() == 2,
            w.entry_of(StreamId::StandardOutput).lock == LockState::Free,
            w.entry_of(StreamId::StandardError).lock == LockState::Free,
            !w.entry_of(StreamId::StandardOutput).writer_locked,
            !w.entry_of(StreamId::StandardError).writer_locked,
            w.entry_of(StreamId::StandardOutput).original == 0,
            w.entry_of(StreamId::StandardOutput).target == 0,
            w.entry_of(StreamId::StandardError).original == 1,
            w.entry_of(StreamId::StandardError).target == 1,
            w.entry_of(StreamId::StandardOutput).buffer@ == Seq::<u8>::empty(),
            w.entry_of(StreamId::StandardError).buffer@ == Seq::<u8>::empty(),
            w.sink_data(0) == Seq::<u8>::empty(),
            w.sink_data(1) == Seq::<u8>::empty(),
            w.sink_open(0),
            w.sink_open(1),
    {
        let mut sinks: Vec<Sink> = Vec::new();
        sinks.push(Sink { data: Vec::new(), write_open: true });
        sinks.push(Sink { data: Vec::new(), write_open: true });
        CaptureWorld {
            stdout_entry: StreamEntry {
                lock: LockState::Free,
                owner: 0,
                writer_locked: false,
                original: 0,
                target: 0,
                buffer: Vec::new(),
            },
            stderr_entry: StreamEntry {
                lock: LockState::Free,
                owner: 0,
                writer_locked: false,
                original: 1,
                target: 1,
                buffer: Vec::new(),
            },
            sinks,
        }
    }

    /// Mutable access to the entry for `id`; everything else is untouched.
    pub fn entry_mut(&mut self, id: StreamId) -> (e: &mut StreamEntry)
        ensures
            *e == old(self).entry_of(id),
            final(self).entry_of(id) == *final(e),
            final(self).entry_of(peer(id)) == old(self).entry_of(peer(id)),
            final(self).sinks == old(self).sinks,
    {
        match id {
            StreamId::StandardOutput => &mut self.stdout_entry,
            StreamId::StandardError => &mut self.stderr_entry,
        }
    }

    /// Close destination `d`'s write end, as dropping an owned descriptor
    /// does. The startup destinations stay open, so well-formedness is kept.
    pub fn close_sink(&mut self, d: usize)
        requires
            old(self).wf(),
            d < old(self).n_sinks(),
            !old(self).is_original(d as int),
        ensures
            final(self).wf(),
            final(self).stdout_entry == old(self).stdout_entry,
            final(self).stderr_entry == old(self).stderr_entry,
            final(self).n_sinks() == old(self).n_sinks(),
            !final(self).sink_open(d as int),
            final(self).sink_data(d as int) == old(self).sink_data(d as int),
            forall|i: int|
                0 <= i < final(self).n_sinks() && i != d ==> final(self).sinks[i] == old(
                    self,
                ).sinks[i],
    {
        let s = &mut self.sinks[d];
        s.write_open = false;
    }

    /// An ordinary write to stream `id` from code unaware of any capture: it
    /// goes through the shared buffered stream. If a capture session holds
    /// the stream's writer-serialization lock the writer must wait and
    /// nothing changes; otherwise the bytes are appended to the stream's
    /// buffer and reach no destination until the next flush.
    pub fn write_through(&mut self, id: StreamId, bytes: &Vec<u8>) -> (r: WriteOutcome)
        requires
            old(self).wf(),
        ensures
            write_through_post(*old(self), *final(self), id, bytes@, r),
    {
        let locked = self.entry_mut(id).writer_locked;
        if locked {
            WriteOutcome::MustWait
        } else {
            let e = self.entry_mut(id);
            append_bytes(&mut e.buffer, bytes);
            WriteOutcome::Done
        }
    }

    /// Read destination `reader` to completion. Terminates only because the
    /// write end has closed, and yields exactly the bytes the destination
    /// received.
    pub fn drain(&self, reader: usize) -> (r: Vec<u8>)
        requires
            self.wf(),
            reader < self.n_sinks(),
            !self.sink_open(reader as int),
        ensures
            r@ == self.sink_data(reader as int),
    {
        let src = &self.sinks[reader];
        let mut r: Vec<u8> = Vec::new();
        append_bytes(&mut r, &src.data);
        proof {
            assert(r@ =~= self.sink_data(reader as int));
        }
        r
    }
}

/// What an ordinary write does: nothing when the writer-serialization lock
/// is held by a capture session (the writer waits), otherwise the bytes sit
/// in the stream's buffer — they reach no destination yet, and never a
/// capture destination.
pub open spec fn write_through_post(
    pre: CaptureWorld,
    post: CaptureWorld,
    id: StreamId,
    bytes: Seq<u8>,
    r: WriteOutcome,
) -> bool {
    &&& post.wf()
    &&& if pre.entry_of(id).writer_locked {
        &&& r == WriteOutcome::MustWait
        &&& post == pre
    } else {
        &&& r == WriteOutcome::Done
        &&& post.entry_of(id) == (StreamEntry {
            buffer: post.entry_of(id).buffer,
            ..pre.entry_of(id)
        })
        &&& post.entry_of(id).buffer@ == pre.entry_of(id).buffer@ + bytes
        &&& post.entry_of(peer(id)) == pre.entry_of(peer(id))
        &&& post.sinks == pre.sinks
    }
}

} // verus!
