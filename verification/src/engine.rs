//! The redirect engine: flush, swap, run the callback, flush, swap back.
//!
//! Given a lent handle, [`LentFile::capture_into`] retargets the stream's
//! destination for the duration of one callback, with a flush barrier on
//! each side so that no buffered byte reaches the wrong destination, and
//! restores the prior destination on every exit the OS lets it — including
//! the callback aborting its thread. [`LentFile::capture`] is the
//! convenience form that allocates a private channel as the destination and
//! hands back its read end.
//!
//! The callback is modelled by what it does to the stream: the bytes it
//! writes, and whether it returns or aborts. What the OS answers at each
//! flush and each descriptor exchange arrives as an [`IoEvents`] value, and
//! the contract states the outcome for every answer.

use vstd::prelude::*;

use crate::errors::{CaptureError, FlushPhase};
use crate::lock::LentFile;
use crate::stream::StreamId;
use crate::world::{append_bytes, peer, CaptureWorld, Sink, StreamEntry};

verus! {

/// One callback execution, seen through its effect on the stream: the bytes
/// it writes through the shared buffered stream, and whether it runs to
/// completion (`completes == false` means it aborts its thread after
/// writing, and the engine's cleanup runs during unwinding).
pub struct CallbackRun {
    pub writes: Vec<u8>,
    pub completes: bool,
}

/// What the OS answered at each step of one session: `None` is success,
/// `Some(code)` the OS error code of a failure. A step that is never
/// reached ignores its entry.
pub struct IoEvents {
    /// Flushing the buffer to the prior destination, before the swap.
    pub flush_before: Option<i32>,
    /// Exchanging the destination for the capture destination.
    pub swap_install: Option<i32>,
    /// Flushing the callback's output, before the swap back.
    pub flush_after: Option<i32>,
    /// Exchanging the destination back to the prior one.
    pub swap_restore: Option<i32>,
}

impl IoEvents {
    /// Every step the OS is asked for succeeds.
    pub open spec fn all_ok(self) -> bool {
        &&& self.flush_before is None
        &&& self.swap_install is None
        &&& self.flush_after is None
        &&& self.swap_restore is None
    }
}

/// How one capture operation ended.
pub enum CaptureOutcome<T> {
    /// The callback completed and every step succeeded.
    Done(T),
    /// The callback aborted its thread. Cleanup still ran; the caller's
    /// unwinding continues.
    CallbackAborted,
    /// A step failed; the error says which and how.
    Failed(CaptureError),
}

/// The lock manager's part of an entry is never touched by the engine, and
/// the startup binding never changes.
pub open spec fn locks_unchanged(pre: CaptureWorld, post: CaptureWorld, id: StreamId) -> bool {
    let e0 = pre.entry_of(id);
    let e1 = post.entry_of(id);
    &&& e1.lock == e0.lock
    &&& e1.owner == e0.owner
    &&& e1.writer_locked == e0.writer_locked
    &&& e1.original == e0.original
}

/// What one flush does: on failure the OS error is surfaced and nothing
/// changes; on success the stream's buffered bytes are appended, in order,
/// to the destination the stream currently points at, and the buffer
/// empties.
pub open spec fn flush_post(
    pre: CaptureWorld,
    post: CaptureWorld,
    id: StreamId,
    outcome: Option<i32>,
    r: Result<(), i32>,
) -> bool {
    let e0 = pre.entry_of(id);
    let t0 = e0.target as int;
    &&& post.wf()
    &&& match outcome {
        Some(code) => {
            &&& r == Result::<(), i32>::Err(code)
            &&& post == pre
        },
        None => {
            &&& r is Ok
            &&& post.entry_of(id) == (StreamEntry { buffer: post.entry_of(id).buffer, ..e0 })
            &&& post.entry_of(id).buffer@ == Seq::<u8>::empty()
            &&& post.entry_of(peer(id)) == pre.entry_of(peer(id))
            &&& post.n_sinks() == pre.n_sinks()
            &&& post.sink_data(t0) == pre.sink_data(t0) + e0.buffer@
            &&& post.sink_open(t0) == pre.sink_open(t0)
            &&& forall|d: int| 0 <= d < pre.n_sinks() && d != t0 ==> post.sinks[d] == pre.sinks[d]
        },
    }
}

/// What one descriptor exchange does: on failure the OS error is surfaced
/// and nothing changes; on success the stream points at `new_target` and the
/// prior destination is handed back.
pub open spec fn swap_post(
    pre: CaptureWorld,
    post: CaptureWorld,
    id: StreamId,
    new_target: usize,
    outcome: Option<i32>,
    r: Result<usize, i32>,
) -> bool {
    &&& post.wf()
    &&& match outcome {
        Some(code) => {
            &&& r == Result::<usize, i32>::Err(code)
            &&& post == pre
        },
        None => {
            &&& r == Result::<usize, i32>::Ok(pre.entry_of(id).target)
            &&& post.entry_of(id) == (StreamEntry { target: new_target, ..pre.entry_of(id) })
            &&& post.entry_of(peer(id)) == pre.entry_of(peer(id))
            &&& post.sinks == pre.sinks
        },
    }
}

/// The result one session owes, given what the OS answered and whether the
/// callback completed. A failure before the callback ran is reported as
/// such; once the callback has aborted, its unwinding wins over any later
/// step's error, which has no caller left to go to.
pub open spec fn session_verdict(run: CallbackRun, io: IoEvents) -> CaptureOutcome<()> {
    match io.flush_before {
        Some(code) => CaptureOutcome::Failed(
            CaptureError::FlushFailure { code, phase: FlushPhase::BeforeSwap },
        ),
        None => match io.swap_install {
            Some(code) => CaptureOutcome::Failed(CaptureError::SwapFailure { code }),
            None => if !run.completes {
                CaptureOutcome::CallbackAborted
            } else {
                match io.flush_after {
                    Some(code) => CaptureOutcome::Failed(
                        CaptureError::FlushFailure { code, phase: FlushPhase::AfterCallback },
                    ),
                    None => match io.swap_restore {
                        Some(code) => CaptureOutcome::Failed(CaptureError::SwapFailure { code }),
                        None => CaptureOutcome::Done(()),
                    },
                }
            },
        },
    }
}

/// What one session does to the world. `cap` is the capture destination;
/// `fresh` says it was allocated by the operation itself (so it starts
/// empty and open, one destination is added, and the operation owns its
/// write end on every path).
///
/// Reading the success case: the bytes buffered before the session reach
/// the stream's prior destination, in full, before any callback byte is
/// visible anywhere; the capture destination ends with exactly the
/// callback's bytes, closed; the stream points back at its prior
/// destination; and no other destination, lock or stream is touched.
pub open spec fn session_post(
    pre: CaptureWorld,
    post: CaptureWorld,
    id: StreamId,
    cap: int,
    fresh: bool,
    run: CallbackRun,
    io: IoEvents,
) -> bool {
    let e0 = pre.entry_of(id);
    let t0 = e0.target as int;
    let b0 = e0.buffer@;
    let w = run.writes@;
    let cap_data0 = if fresh {
        Seq::<u8>::empty()
    } else {
        pre.sink_data(cap)
    };
    let cap_open0 = if fresh {
        true
    } else {
        pre.sink_open(cap)
    };
    &&& post.wf()
    &&& locks_unchanged(pre, post, id)
    &&& post.entry_of(peer(id)) == pre.entry_of(peer(id))
    &&& post.n_sinks() == pre.n_sinks() + (if fresh {
        1 as int
    } else {
        0 as int
    })
    &&& forall|d: int|
        0 <= d < pre.n_sinks() && d != t0 && d != cap ==> post.sinks[d] == pre.sinks[d]
    &&& match io.flush_before {
        Some(_) => {
            // Nothing changed, safe to report and return. A freshly
            // allocated destination is dropped again.
            &&& post.entry_of(id) == e0
            &&& post.sink_data(t0) == pre.sink_data(t0)
            &&& post.sink_open(t0) == pre.sink_open(t0)
            &&& post.sink_data(cap) == cap_data0
            &&& post.sink_open(cap) == (if fresh {
                false
            } else {
                cap_open0
            })
        },
        None => {
            // The pre-session buffer reached the prior destination first.
            &&& post.sink_data(t0) == pre.sink_data(t0) + b0
            &&& post.sink_open(t0) == pre.sink_open(t0)
            &&& match io.swap_install {
                Some(_) => {
                    // The exchange failed; the callback never ran. The
                    // supplied destination was consumed and is dropped.
                    &&& post.entry_of(id) == (StreamEntry {
                        buffer: post.entry_of(id).buffer,
                        ..e0
                    })
                    &&& post.entry_of(id).buffer@ == Seq::<u8>::empty()
                    &&& post.sink_data(cap) == cap_data0
                    &&& !post.sink_open(cap)
                },
                None => match io.flush_after {
                    Some(_) => {
                        // Degraded: the callback's bytes sit unflushed in
                        // the buffer and the stream still points at the
                        // capture destination. Surfaced, never hidden.
                        &&& post.entry_of(id).target as int == cap
                        &&& post.entry_of(id).buffer@ == w
                        &&& post.sink_data(cap) == cap_data0
                        &&& post.sink_open(cap) == cap_open0
                    },
                    None => {
                        // All callback output is visible before control
                        // returns, byte for byte.
                        &&& post.sink_data(cap) == cap_data0 + w
                        &&& post.entry_of(id).buffer@ == Seq::<u8>::empty()
                        &&& match io.swap_restore {
                            Some(_) => {
                                &&& post.entry_of(id).target as int == cap
                                &&& post.sink_open(cap) == cap_open0
                            },
                            None => {
                                // Restored; the capture destination's write
                                // end closes, signalling end-of-data.
                                &&& post.entry_of(id).target == e0.target
                                &&& !post.sink_open(cap)
                            },
                        }
                    },
                },
            }
        },
    }
}

impl LentFile {
    /// Flush the stream's buffer to whatever destination it currently
    /// points at. Demands the lent handle: flushing is part of the
    /// swap-run-swap window. `outcome` is the OS's answer.
    pub fn flush(&self, world: &mut CaptureWorld, outcome: Option<i32>) -> (r: Result<(), i32>)
        requires
            old(world).wf(),
            self.valid(*old(world)),
        ensures
            flush_post(*old(world), *final(world), self.stream_id(), outcome, r),
            self.valid(*final(world)),
    {
        let id = self.stream();
        match outcome {
            Some(code) => Result::Err(code),
            None => {
                let mut moved: Vec<u8> = Vec::new();
                let e = world.entry_mut(id);
                std::mem::swap(&mut e.buffer, &mut moved);
                let t = e.target;
                let s = &mut world.sinks[t];
                append_bytes(&mut s.data, &moved);
                Result::Ok(())
            },
        }
    }

    /// Atomically exchange the stream's destination for `new_target`,
    /// receiving the prior destination back. Must only be invoked while
    /// holding the lent handle — here that discipline is a checked
    /// precondition, not merely documentation. `outcome` is the OS's answer.
    pub fn swap_target(
        &self,
        world: &mut CaptureWorld,
        new_target: usize,
        outcome: Option<i32>,
    ) -> (r: Result<usize, i32>)
        requires
            old(world).wf(),
            self.valid(*old(world)),
            new_target < old(world).n_sinks(),
        ensures
            swap_post(*old(world), *final(world), self.stream_id(), new_target, outcome, r),
            self.valid(*final(world)),
    {
        let id = self.stream();
        match outcome {
            Some(code) => Result::Err(code),
            None => {
                let e = world.entry_mut(id);
                let prior = e.target;
                e.target = new_target;
                Result::Ok(prior)
            },
        }
    }

    /// A write made through the shared buffered stream by the session's own
    /// callback: the holder of the handle may write even though the
    /// writer-serialization lock is taken, and the bytes join the buffer.
    pub fn write_buffered(&self, world: &mut CaptureWorld, bytes: &Vec<u8>)
        requires
            old(world).wf(),
            self.valid(*old(world)),
        ensures
            final(world).wf(),
            self.valid(*final(world)),
            final(world).entry_of(self.stream_id()) == (StreamEntry {
                buffer: final(world).entry_of(self.stream_id()).buffer,
                ..old(world).entry_of(self.stream_id())
            }),
            final(world).entry_of(self.stream_id()).buffer@ == old(world).entry_of(
                self.stream_id(),
            ).buffer@ + bytes@,
            final(world).entry_of(peer(self.stream_id())) == old(world).entry_of(
                peer(self.stream_id()),
            ),
            final(world).sinks == old(world).sinks,
    {
        let id = self.stream();
        let e = world.entry_mut(id);
        append_bytes(&mut e.buffer, bytes);
    }

    /// Retarget the stream at destination `new_target` for the duration of
    /// one callback: flush, exchange, run, flush, exchange back, with the
    /// prior destination reinstated and the capture destination's write end
    /// dropped on the way out. The callback's writes flow to `new_target`
    /// and nowhere else; if it aborts its thread, cleanup still runs during
    /// unwinding.
    pub fn capture_into(
        &self,
        world: &mut CaptureWorld,
        new_target: usize,
        run: &CallbackRun,
        io: &IoEvents,
    ) -> (r: CaptureOutcome<()>)
        requires
            old(world).wf(),
            self.valid(*old(world)),
            new_target < old(world).n_sinks(),
            new_target as int != old(world).entry_of(self.stream_id()).target as int,
            !old(world).is_original(new_target as int),
        ensures
            session_post(
                *old(world),
                *final(world),
                self.stream_id(),
                new_target as int,
                false,
                *run,
                *io,
            ),
            r == session_verdict(*run, *io),
            self.valid(*final(world)),
    {
        match self.flush(world, io.flush_before) {
            Result::Err(code) => {
                return CaptureOutcome::Failed(
                    CaptureError::FlushFailure { code, phase: FlushPhase::BeforeSwap },
                );
            },
            Result::Ok(()) => {},
        }
        let prior = match self.swap_target(world, new_target, io.swap_install) {
            Result::Err(code) => {
                world.close_sink(new_target);
                return CaptureOutcome::Failed(CaptureError::SwapFailure { code });
            },
            Result::Ok(t) => t,
        };
        self.write_buffered(world, &run.writes);
        match self.flush(world, io.flush_after) {
            Result::Err(code) => {
                if run.completes {
                    return CaptureOutcome::Failed(
                        CaptureError::FlushFailure { code, phase: FlushPhase::AfterCallback },
                    );
                } else {
                    return CaptureOutcome::CallbackAborted;
                }
            },
            Result::Ok(()) => {},
        }
        match self.swap_target(world, prior, io.swap_restore) {
            Result::Err(code) => {
                if run.completes {
                    return CaptureOutcome::Failed(CaptureError::SwapFailure { code });
                } else {
                    return CaptureOutcome::CallbackAborted;
                }
            },
            Result::Ok(swapped_out) => {
                world.close_sink(swapped_out);
            },
        }
        if run.completes {
            CaptureOutcome::Done(())
        } else {
            CaptureOutcome::CallbackAborted
        }
    }

    /// Allocate a private byte channel, capture the callback's output into
    /// its write end, and return the read end for the caller to drain. The
    /// write end closing on the way out is what lets a full read of the
    /// channel terminate.
    pub fn capture(&self, world: &mut CaptureWorld, run: &CallbackRun, io: &IoEvents) -> (r:
        CaptureOutcome<usize>)
        requires
            old(world).wf(),
            self.valid(*old(world)),
        ensures
            session_post(
                *old(world),
                *final(world),
                self.stream_id(),
                old(world).n_sinks(),
                true,
                *run,
                *io,
            ),
            match session_verdict(*run, *io) {
                CaptureOutcome::Done(_) => r matches CaptureOutcome::Done(reader)
                    && reader as int == old(world).n_sinks(),
                CaptureOutcome::CallbackAborted => r is CallbackAborted,
                CaptureOutcome::Failed(e) => r == CaptureOutcome::<usize>::Failed(e),
            },
            self.valid(*final(world)),
    {
        let reader = world.sinks.len();
        world.sinks.push(Sink { data: Vec::new(), write_open: true });
        let r = match self.capture_into(world, reader, run, io) {
            CaptureOutcome::Done(()) => CaptureOutcome::Done(reader),
            CaptureOutcome::CallbackAborted => CaptureOutcome::CallbackAborted,
            CaptureOutcome::Failed(e) => {
                match e {
                    CaptureError::FlushFailure { code: _, phase: FlushPhase::BeforeSwap } => {
                        // The freshly allocated write end is dropped when
                        // nothing was ever swapped.
                        world.close_sink(reader);
                    },
                    _ => {},
                }
                CaptureOutcome::Failed(e)
            },
        };
        r
    }
}

} // verus!
