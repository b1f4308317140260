//! The failure taxonomy of capture operations.

use vstd::prelude::*;

verus! {

/// Where a flush failure struck. The two cases must be reported apart: a
/// failure before the swap left everything as it was, while one after the
/// callback leaves the stream still pointing at the capture destination.
#[derive(Clone, Copy, PartialEq, Eq, Structural, Debug)]
pub enum FlushPhase {
    /// Flushing the stream's buffer to its prior destination, before any
    /// swap: nothing has changed, safe to report and return.
    BeforeSwap,
    /// Flushing the callback's output after it ran: the swap-back has not
    /// been attempted, a degraded but not silently corrupting state.
    AfterCallback,
}

/// Everything a capture operation can fail with. Every failure is returned
/// to the immediate caller; none is swallowed.
#[derive(Clone, Copy, PartialEq, Eq, Structural, Debug)]
pub enum CaptureError {
    /// A previous holder of the process-wide mutex failed while holding it;
    /// stream state integrity is not asserted afterwards.
    LockPoisoned,
    /// The underlying stream could not flush its buffer; carries the OS
    /// error code and the phase the failure struck in.
    FlushFailure { code: i32, phase: FlushPhase },
    /// The descriptor-exchange primitive reported an OS error; fatal for the
    /// stream's subsequent reliability, since its output target is now of
    /// unknown validity.
    SwapFailure { code: i32 },
    /// The captured bytes are not valid text.
    DecodeFailure,
}

} // verus!
