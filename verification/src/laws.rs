//! The guarantees the library makes across operations, proved once and for
//! all over the same predicates the operations' own contracts use.
//!
//! Mutual exclusion of the lent handles themselves is stated beside the
//! lock manager (`lemma_mutual_exclusion`, `lemma_acquire_excluded`).

use vstd::prelude::*;

use crate::engine::{flush_post, session_post, CallbackRun, IoEvents};
use crate::lock::{acquire_post, release_post, AcquireOutcome, LentFile};
use crate::stream::StreamId;
use crate::world::{write_through_post, CaptureWorld, LockState, WriteOutcome};

verus! {

/// Isolation, first half: while a capture session holds a stream's lent
/// handle, an ordinary writer to that stream gets nothing through — it must
/// wait, and no state moves. Its bytes can therefore never appear inside
/// the session's captured output.
pub proof fn lemma_writer_blocked_during_session(
    w: CaptureWorld,
    post: CaptureWorld,
    h: LentFile,
    bytes: Seq<u8>,
    r: WriteOutcome,
)
    requires
        h.valid(w),
        write_through_post(w, post, h.stream_id(), bytes, r),
    ensures
        r == WriteOutcome::MustWait,
        post == w,
{
}

/// Isolation, second half: an ordinary write that does go through reaches
/// no destination at all at write time — the bytes sit in the stream's
/// buffer. In particular they cannot land in any capture destination.
pub proof fn lemma_outside_write_reaches_no_destination(
    pre: CaptureWorld,
    post: CaptureWorld,
    id: StreamId,
    bytes: Seq<u8>,
    r: WriteOutcome,
)
    requires
        write_through_post(pre, post, id, bytes, r),
    ensures
        forall|d: int|
            0 <= d < pre.n_sinks() ==> post.sink_data(d) == pre.sink_data(d),
        post.n_sinks() == pre.n_sinks(),
{
}

/// Flush ordering and round trip, for a session whose OS steps all
/// succeed: the bytes buffered before the session reach the stream's prior
/// destination, in full and ahead of everything else; the capture
/// destination receives exactly the callback's bytes, byte for byte,
/// nothing lost and nothing foreign; and no byte stays behind in the
/// buffer.
pub proof fn lemma_flush_ordering_round_trip(
    pre: CaptureWorld,
    post: CaptureWorld,
    id: StreamId,
    cap: int,
    fresh: bool,
    run: CallbackRun,
    io: IoEvents,
)
    requires
        session_post(pre, post, id, cap, fresh, run, io),
        io.all_ok(),
        cap != pre.entry_of(id).target,
    ensures
        post.sink_data(pre.entry_of(id).target as int) == pre.sink_data(
            pre.entry_of(id).target as int,
        ) + pre.entry_of(id).buffer@,
        post.sink_data(cap) == (if fresh {
            Seq::<u8>::empty()
        } else {
            pre.sink_data(cap)
        }) + run.writes@,
        post.entry_of(id).buffer@ == Seq::<u8>::empty(),
        !post.sink_open(cap),
{
}

/// Restoration: as long as neither post-callback step failed — the two
/// failures the design surfaces as a degraded state — the stream points at
/// its prior destination again after the session, whatever the callback did
/// and even if the first flush or the installing swap failed. A session
/// that allocated its own capture destination has closed it.
pub proof fn lemma_restoration(
    pre: CaptureWorld,
    post: CaptureWorld,
    id: StreamId,
    cap: int,
    fresh: bool,
    run: CallbackRun,
    io: IoEvents,
)
    requires
        session_post(pre, post, id, cap, fresh, run, io),
        io.flush_after is None,
        io.swap_restore is None,
    ensures
        post.entry_of(id).target == pre.entry_of(id).target,
        fresh ==> !post.sink_open(cap),
{
}

/// Restoration, observed: after a fully successful session on a stream
/// that pointed at its startup destination, a subsequent ordinary write
/// followed by a flush reaches that startup destination — never the
/// now-closed capture destination, whose contents stay exactly the
/// callback's bytes.
pub proof fn lemma_restoration_observed(
    w0: CaptureWorld,
    w1: CaptureWorld,
    w2: CaptureWorld,
    w3: CaptureWorld,
    h: LentFile,
    cap: int,
    run: CallbackRun,
    io: IoEvents,
    bytes: Seq<u8>,
    fr: Result<(), i32>,
)
    requires
        h.valid(w0),
        w0.wf(),
        w0.entry_of(h.stream_id()).target == w0.entry_of(h.stream_id()).original,
        cap == w0.n_sinks(),
        session_post(w0, w1, h.stream_id(), cap, true, run, io),
        io.all_ok(),
        release_post(w1, w2, h),
        write_through_post(w2, w3, h.stream_id(), bytes, WriteOutcome::Done),
        fr is Ok,
    ensures
        w3.entry_of(h.stream_id()).target == w0.entry_of(h.stream_id()).original,
        forall|post: CaptureWorld|
            flush_post(w3, post, h.stream_id(), None, fr) ==> {
                &&& post.sink_data(w0.entry_of(h.stream_id()).original as int) == w3.sink_data(
                    w0.entry_of(h.stream_id()).original as int,
                ) + w3.entry_of(h.stream_id()).buffer@
                &&& post.sink_data(cap) == w3.sink_data(cap)
                &&& post.sink_data(cap) == run.writes@
                &&& !post.sink_open(cap)
            },
{
    let id = h.stream_id();
    let t0 = w3.entry_of(id).target as int;
    assert(w1.entry_of(id).target == w0.entry_of(id).original);
    assert(t0 == w0.entry_of(id).original);
    assert(w3.sink_data(cap) =~= Seq::<u8>::empty() + run.writes@);
    assert(Seq::<u8>::empty() + run.writes@ =~= run.writes@);
    assert(cap < w3.n_sinks());
    assert(cap != t0);
    assert forall|post: CaptureWorld| flush_post(w3, post, id, None, fr) implies {
        &&& post.sink_data(w0.entry_of(id).original as int) == w3.sink_data(
            w0.entry_of(id).original as int,
        ) + w3.entry_of(id).buffer@
        &&& post.sink_data(cap) == w3.sink_data(cap)
        &&& post.sink_data(cap) == run.writes@
        &&& !post.sink_open(cap)
    } by {
        assert(post.sinks[cap] == w3.sinks[cap]);
    }
}

/// Sessions on one stream are totally ordered and isolated from each
/// other: after one owner's session and release, a second owner's session
/// on the same stream leaves the first capture's contents untouched, and
/// each capture holds exactly its own callback's bytes — no byte of either
/// appears in the other.
pub proof fn lemma_sessions_isolated(
    w0: CaptureWorld,
    w1: CaptureWorld,
    w2: CaptureWorld,
    w3: CaptureWorld,
    h1: LentFile,
    h2: LentFile,
    cap1: int,
    cap2: int,
    run1: CallbackRun,
    run2: CallbackRun,
    io1: IoEvents,
    io2: IoEvents,
)
    requires
        w0.wf(),
        h1.valid(w0),
        h1.stream_id() == h2.stream_id(),
        cap1 == w0.n_sinks(),
        session_post(w0, w1, h1.stream_id(), cap1, true, run1, io1),
        io1.all_ok(),
        release_post(w1, w2, h1),
        cap2 == w2.n_sinks(),
        session_post(w2, w3, h2.stream_id(), cap2, true, run2, io2),
        io2.all_ok(),
    ensures
        cap1 != cap2,
        w3.sink_data(cap1) == run1.writes@,
        w3.sink_data(cap2) == run2.writes@,
{
    let id = h1.stream_id();
    assert(w1.sink_data(cap1) =~= Seq::<u8>::empty() + run1.writes@);
    assert(Seq::<u8>::empty() + run1.writes@ =~= run1.writes@);
    assert(w2.sink_data(cap1) == run1.writes@);
    assert(w2.entry_of(id).target == w0.entry_of(id).target);
    assert(w0.entry_of(id).target < w0.n_sinks());
    assert(cap1 != w2.entry_of(id).target as int);
    assert(w2.n_sinks() == w0.n_sinks() + 1);
    assert(w3.sinks[cap1] == w2.sinks[cap1]);
    assert(w3.sink_data(cap2) =~= Seq::<u8>::empty() + run2.writes@);
    assert(Seq::<u8>::empty() + run2.writes@ =~= run2.writes@);
}

/// Unwind safety: if the callback aborts its thread, the stream is still
/// restored to its pre-capture destination, the handle's release still
/// frees both locks, and a later acquisition of the same stream is granted
/// — no lock is left dangling and no deadlock remains.
pub proof fn lemma_unwind_safety(
    w0: CaptureWorld,
    w1: CaptureWorld,
    w2: CaptureWorld,
    w3: CaptureWorld,
    h: LentFile,
    cap: int,
    fresh: bool,
    run: CallbackRun,
    io: IoEvents,
    next_owner: u64,
    r: AcquireOutcome,
)
    requires
        h.valid(w0),
        session_post(w0, w1, h.stream_id(), cap, fresh, run, io),
        io.all_ok(),
        !run.completes,
        release_post(w1, w2, h),
        acquire_post(w2, w3, h.stream_id(), next_owner, r),
    ensures
        w2.entry_of(h.stream_id()).lock == LockState::Free,
        !w2.entry_of(h.stream_id()).writer_locked,
        w2.entry_of(h.stream_id()).target == w0.entry_of(h.stream_id()).target,
        r matches AcquireOutcome::Acquired(h2) && h2.valid(w3) && h2.owner_id() == next_owner,
{
}

} // verus!
