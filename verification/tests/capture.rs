use stream_capture::{
    acquire, lent_stderr, lent_stdout, AcquireOutcome, CallbackRun, CaptureError, CaptureOutcome,
    CaptureWorld, FlushPhase, IoEvents, LockState, StreamId, WriteOutcome,
};

fn all_ok() -> IoEvents {
    IoEvents { flush_before: None, swap_install: None, flush_after: None, swap_restore: None }
}

fn run_of(bytes: &[u8]) -> CallbackRun {
    CallbackRun { writes: bytes.to_vec(), completes: true }
}

#[test]
fn world_starts_unlocked_and_bound() {
    let w = CaptureWorld::new();
    assert_eq!(w.sinks.len(), 2);
    assert_eq!(w.stdout_entry.lock, LockState::Free);
    assert_eq!(w.stderr_entry.lock, LockState::Free);
    assert_eq!(w.stdout_entry.target, 0);
    assert_eq!(w.stdout_entry.original, 0);
    assert_eq!(w.stderr_entry.target, 1);
    assert_eq!(w.stderr_entry.original, 1);
    assert!(!w.stdout_entry.writer_locked);
    assert!(w.sinks[0].write_open);
    assert!(w.sinks[1].write_open);
}

#[test]
fn scenario_hello_goodbye() {
    let mut w = CaptureWorld::new();
    let h = match lent_stdout(&mut w, 1) {
        AcquireOutcome::Acquired(h) => h,
        _ => panic!("fresh stream must be acquirable"),
    };
    let run = run_of(b"Hello, world! 7\ngoodbye");
    let r = h.capture_string(&mut w, &run, &all_ok());
    match r {
        CaptureOutcome::Done(s) => assert_eq!(s, "Hello, world! 7\ngoodbye"),
        _ => panic!("capture must succeed"),
    }
    h.release(&mut w);
}

#[test]
fn stress_test() {
    // Five owners, a hundred sequential captures each, with outside writers
    // trying to squeeze bytes in between: every captured string is exactly
    // its own round's output, and outside bytes never appear in it.
    let mut w = CaptureWorld::new();
    for owner in 0u64..5 {
        for i in 0..100 {
            let h = match lent_stdout(&mut w, owner) {
                AcquireOutcome::Acquired(h) => h,
                _ => panic!("stream is free between rounds"),
            };
            // an unrelated writer while the capture holds the stream: it
            // must wait, nothing of it leaks into the capture
            let outside = format!("Hello from outside! {}", i).into_bytes();
            assert_eq!(w.write_through(StreamId::StandardOutput, &outside), WriteOutcome::MustWait);
            let text = format!("Hello, world! {}\ngoodbye", i);
            let run = run_of(text.as_bytes());
            match h.capture_string(&mut w, &run, &all_ok()) {
                CaptureOutcome::Done(s) => assert_eq!(s, text),
                _ => panic!("capture must succeed"),
            }
            h.release(&mut w);
        }
    }
}

#[test]
fn empty_capture_yields_empty_text() {
    let mut w = CaptureWorld::new();
    let h = match lent_stdout(&mut w, 1) {
        AcquireOutcome::Acquired(h) => h,
        _ => panic!("fresh stream must be acquirable"),
    };
    match h.capture_string(&mut w, &run_of(b""), &all_ok()) {
        CaptureOutcome::Done(s) => assert_eq!(s, ""),
        _ => panic!("an empty capture must succeed"),
    }
    h.release(&mut w);
}

#[test]
fn second_acquire_must_wait_until_release() {
    let mut w = CaptureWorld::new();
    let h = match lent_stdout(&mut w, 1) {
        AcquireOutcome::Acquired(h) => h,
        _ => panic!("fresh stream must be acquirable"),
    };
    assert!(matches!(lent_stdout(&mut w, 2), AcquireOutcome::MustWait));
    assert!(matches!(lent_stdout(&mut w, 1), AcquireOutcome::MustWait));
    h.release(&mut w);
    match lent_stdout(&mut w, 2) {
        AcquireOutcome::Acquired(h2) => h2.release(&mut w),
        _ => panic!("released stream must be acquirable"),
    }
}

#[test]
fn streams_are_independent() {
    let mut w = CaptureWorld::new();
    let h_out = match lent_stdout(&mut w, 1) {
        AcquireOutcome::Acquired(h) => h,
        _ => panic!("stdout must be acquirable"),
    };
    let h_err = match lent_stderr(&mut w, 2) {
        AcquireOutcome::Acquired(h) => h,
        _ => panic!("stderr must be acquirable while stdout is lent"),
    };
    let run = run_of(b"to stderr");
    match h_err.capture_string(&mut w, &run, &all_ok()) {
        CaptureOutcome::Done(s) => assert_eq!(s, "to stderr"),
        _ => panic!("stderr capture must succeed"),
    }
    h_err.release(&mut w);
    h_out.release(&mut w);
}

#[test]
fn poisoned_mutex_is_reported_not_cleared() {
    let mut w = CaptureWorld::new();
    let h = match acquire(&mut w, StreamId::StandardError, 3) {
        AcquireOutcome::Acquired(h) => h,
        _ => panic!("fresh stream must be acquirable"),
    };
    h.mark_poisoned(&mut w);
    let outcome = lent_stderr(&mut w, 4);
    assert!(matches!(outcome, AcquireOutcome::Poisoned));
    assert_eq!(outcome.lock_error(), Some(CaptureError::LockPoisoned));
    assert!(matches!(lent_stderr(&mut w, 5), AcquireOutcome::Poisoned));
    // the other stream identity is untouched
    match lent_stdout(&mut w, 4) {
        AcquireOutcome::Acquired(h2) => h2.release(&mut w),
        _ => panic!("stdout must still be acquirable"),
    }
}

#[test]
fn flush_failure_before_swap_is_safe() {
    let mut w = CaptureWorld::new();
    let h = match lent_stdout(&mut w, 1) {
        AcquireOutcome::Acquired(h) => h,
        _ => panic!("fresh stream must be acquirable"),
    };
    let io = IoEvents { flush_before: Some(5), ..all_ok() };
    match h.capture_string(&mut w, &run_of(b"lost"), &io) {
        CaptureOutcome::Failed(e) => {
            assert_eq!(e, CaptureError::FlushFailure { code: 5, phase: FlushPhase::BeforeSwap })
        }
        _ => panic!("flush failure must be surfaced"),
    }
    // nothing changed: still pointing at the original destination
    assert_eq!(w.stdout_entry.target, 0);
    assert!(w.sinks[0].data.is_empty());
    h.release(&mut w);
}

#[test]
fn flush_failure_after_callback_is_degraded_and_surfaced() {
    let mut w = CaptureWorld::new();
    let h = match lent_stdout(&mut w, 1) {
        AcquireOutcome::Acquired(h) => h,
        _ => panic!("fresh stream must be acquirable"),
    };
    let io = IoEvents { flush_after: Some(9), ..all_ok() };
    match h.capture_string(&mut w, &run_of(b"stuck"), &io) {
        CaptureOutcome::Failed(e) => {
            assert_eq!(e, CaptureError::FlushFailure { code: 9, phase: FlushPhase::AfterCallback })
        }
        _ => panic!("flush failure must be surfaced"),
    }
    // degraded: the stream still points at the capture destination and the
    // callback's bytes sit unflushed in the buffer
    assert_eq!(w.stdout_entry.target, 2);
    assert_eq!(w.stdout_entry.buffer, b"stuck".to_vec());
    assert!(w.sinks[2].data.is_empty());
    h.release(&mut w);
}

#[test]
fn swap_failures_are_surfaced() {
    let mut w = CaptureWorld::new();
    let h = match lent_stdout(&mut w, 1) {
        AcquireOutcome::Acquired(h) => h,
        _ => panic!("fresh stream must be acquirable"),
    };
    let io = IoEvents { swap_install: Some(3), ..all_ok() };
    match h.capture_string(&mut w, &run_of(b"never"), &io) {
        CaptureOutcome::Failed(e) => assert_eq!(e, CaptureError::SwapFailure { code: 3 }),
        _ => panic!("swap failure must be surfaced"),
    }
    // the exchange never happened; the callback never ran
    assert_eq!(w.stdout_entry.target, 0);
    assert!(w.sinks[2].data.is_empty());

    let io = IoEvents { swap_restore: Some(4), ..all_ok() };
    match h.capture_string(&mut w, &run_of(b"written"), &io) {
        CaptureOutcome::Failed(e) => assert_eq!(e, CaptureError::SwapFailure { code: 4 }),
        _ => panic!("swap failure must be surfaced"),
    }
    // the callback's output was flushed, but the swap back failed
    assert_eq!(w.stdout_entry.target, 3);
    assert_eq!(w.sinks[3].data, b"written".to_vec());
    h.release(&mut w);
}

#[test]
fn aborting_callback_still_restores_and_releases() {
    let mut w = CaptureWorld::new();
    let h = match lent_stdout(&mut w, 1) {
        AcquireOutcome::Acquired(h) => h,
        _ => panic!("fresh stream must be acquirable"),
    };
    let run = CallbackRun { writes: b"partial".to_vec(), completes: false };
    assert!(matches!(h.capture_string(&mut w, &run, &all_ok()), CaptureOutcome::CallbackAborted));
    // restored: back on the original destination, capture channel closed
    assert_eq!(w.stdout_entry.target, 0);
    assert!(!w.sinks[2].write_open);
    h.release(&mut w);
    assert_eq!(w.stdout_entry.lock, LockState::Free);
    // another owner can capture afterwards: no deadlock, no stale redirect
    let h2 = match lent_stdout(&mut w, 2) {
        AcquireOutcome::Acquired(h2) => h2,
        _ => panic!("stream must be acquirable after an abort"),
    };
    match h2.capture_string(&mut w, &run_of(b"next"), &all_ok()) {
        CaptureOutcome::Done(s) => assert_eq!(s, "next"),
        _ => panic!("capture after an abort must succeed"),
    }
    h2.release(&mut w);
}

#[test]
fn invalid_utf8_is_a_decode_failure() {
    let mut w = CaptureWorld::new();
    let h = match lent_stdout(&mut w, 1) {
        AcquireOutcome::Acquired(h) => h,
        _ => panic!("fresh stream must be acquirable"),
    };
    let run = run_of(&[0xFFu8, 0xFE, 0x41]);
    match h.capture_string(&mut w, &run, &all_ok()) {
        CaptureOutcome::Failed(e) => assert_eq!(e, CaptureError::DecodeFailure),
        _ => panic!("invalid text must fail decoding"),
    }
    h.release(&mut w);
}

#[test]
fn multibyte_text_is_decoded() {
    let mut w = CaptureWorld::new();
    let h = match lent_stdout(&mut w, 1) {
        AcquireOutcome::Acquired(h) => h,
        _ => panic!("fresh stream must be acquirable"),
    };
    let text = "héllo — καλημέρα";
    match h.capture_string(&mut w, &run_of(text.as_bytes()), &all_ok()) {
        CaptureOutcome::Done(s) => assert_eq!(s, text),
        _ => panic!("valid text must decode"),
    }
    h.release(&mut w);
}

#[test]
fn raw_bytes_round_trip_through_capture() {
    let mut w = CaptureWorld::new();
    let h = match lent_stdout(&mut w, 1) {
        AcquireOutcome::Acquired(h) => h,
        _ => panic!("fresh stream must be acquirable"),
    };
    let payload = vec![0u8, 159, 146, 150, 10];
    let run = CallbackRun { writes: payload.clone(), completes: true };
    let reader = match h.capture(&mut w, &run, &all_ok()) {
        CaptureOutcome::Done(reader) => reader,
        _ => panic!("capture must succeed"),
    };
    assert_eq!(reader, 2);
    assert!(!w.sinks[reader].write_open);
    assert_eq!(w.drain(reader), payload);
    h.release(&mut w);
}

#[test]
fn flush_ordering_and_isolation_observed() {
    let mut w = CaptureWorld::new();
    // an ordinary write before any capture sits in the buffer
    assert_eq!(
        w.write_through(StreamId::StandardOutput, &b"before".to_vec()),
        WriteOutcome::Done
    );
    assert!(w.sinks[0].data.is_empty());
    let h = match lent_stdout(&mut w, 1) {
        AcquireOutcome::Acquired(h) => h,
        _ => panic!("fresh stream must be acquirable"),
    };
    match h.capture_string(&mut w, &run_of(b"inside"), &all_ok()) {
        CaptureOutcome::Done(s) => assert_eq!(s, "inside"),
        _ => panic!("capture must succeed"),
    }
    // the pre-capture bytes reached the original destination, ahead of the
    // callback's output, and never the capture channel
    assert_eq!(w.sinks[0].data, b"before".to_vec());
    assert_eq!(w.sinks[2].data, b"inside".to_vec());
    h.release(&mut w);
    // restoration: later writes reach the original destination again
    assert_eq!(w.write_through(StreamId::StandardOutput, &b"after".to_vec()), WriteOutcome::Done);
    let h2 = match lent_stdout(&mut w, 2) {
        AcquireOutcome::Acquired(h2) => h2,
        _ => panic!("stream must be acquirable again"),
    };
    assert!(h2.flush(&mut w, None).is_ok());
    assert_eq!(w.sinks[0].data, b"beforeafter".to_vec());
    assert_eq!(w.sinks[2].data, b"inside".to_vec());
    h2.release(&mut w);
}
