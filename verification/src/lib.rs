//! Capture of a process's standard output or standard error stream while a
//! callback runs, modelled as verified state transitions.
//!
//! The library has two collaborating parts. The stream lock manager hands out
//! at most one lent handle per stream identity, combining a process-wide
//! mutex with the stream's own writer-serialization lock. The redirect
//! engine, given such a handle, flushes the stream, swaps its output target
//! for a capture target, runs the callback, flushes again and swaps back, so
//! that no byte reaches the wrong destination.

mod engine;
mod errors;
mod laws;
mod lock;
mod stream;
mod text;
mod world;

pub use engine::{flush_post, locks_unchanged, session_post, session_verdict, swap_post,
    CallbackRun, CaptureOutcome, IoEvents};
pub use errors::{CaptureError, FlushPhase};
pub use laws::{lemma_flush_ordering_round_trip, lemma_outside_write_reaches_no_destination,
    lemma_restoration, lemma_restoration_observed, lemma_sessions_isolated, lemma_unwind_safety,
    lemma_writer_blocked_during_session};
pub use lock::{acquire, acquire_post, lemma_acquire_excluded, lemma_mutual_exclusion, lent_stderr,
    lent_stdout, release_post, AcquireOutcome, LentFile};
pub use stream::StreamId;
pub use text::{byte_tail, is_continuation, utf8_chars_of, valid_utf8};
pub use world::{append_bytes, peer, write_through_post, CaptureWorld, LockState, Sink, StreamEntry,
    WriteOutcome};
