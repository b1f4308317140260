//! The text convenience layer: capture a callback's output and decode it.
//!
//! [`LentFile::capture_string`] captures into a private channel, drains the
//! read end to completion and decodes the bytes as text, failing with
//! [`CaptureError::DecodeFailure`] exactly when they are not valid UTF-8.

use vstd::prelude::*;

use crate::engine::{session_post, session_verdict, CallbackRun, CaptureOutcome, IoEvents};
use crate::errors::CaptureError;
use crate::lock::LentFile;
use crate::world::CaptureWorld;

verus! {

/// The bytes of `b` from position `k` on.
pub open spec fn byte_tail(b: Seq<u8>, k: int) -> Seq<u8> {
    b.subrange(k, b.len() as int)
}

/// Whether `x` is a UTF-8 continuation byte.
pub open spec fn is_continuation(x: u8) -> bool {
    0x80 <= x <= 0xBF
}

/// Whether `b` is a valid UTF-8 encoding: a sequence of well-formed one- to
/// four-byte units, with overlong forms, surrogate code points and values
/// beyond the last code point excluded.
pub open spec fn valid_utf8(b: Seq<u8>) -> bool
    decreases b.len(),
{
    if b.len() == 0 {
        true
    } else {
        let x = b[0];
        if x < 0x80 {
            valid_utf8(byte_tail(b, 1))
        } else if 0xC2 <= x <= 0xDF {
            &&& b.len() >= 2
            &&& is_continuation(b[1])
            &&& valid_utf8(byte_tail(b, 2))
        } else if x == 0xE0 {
            &&& b.len() >= 3
            &&& 0xA0 <= b[1] <= 0xBF
            &&& is_continuation(b[2])
            &&& valid_utf8(byte_tail(b, 3))
        } else if 0xE1 <= x <= 0xEC {
            &&& b.len() >= 3
            &&& is_continuation(b[1])
            &&& is_continuation(b[2])
            &&& valid_utf8(byte_tail(b, 3))
        } else if x == 0xED {
            &&& b.len() >= 3
            &&& 0x80 <= b[1] <= 0x9F
            &&& is_continuation(b[2])
            &&& valid_utf8(byte_tail(b, 3))
        } else if 0xEE <= x <= 0xEF {
            &&& b.len() >= 3
            &&& is_continuation(b[1])
            &&& is_continuation(b[2])
            &&& valid_utf8(byte_tail(b, 3))
        } else if x == 0xF0 {
            &&& b.len() >= 4
            &&& 0x90 <= b[1] <= 0xBF
            &&& is_continuation(b[2])
            &&& is_continuation(b[3])
            &&& valid_utf8(byte_tail(b, 4))
        } else if 0xF1 <= x <= 0xF3 {
            &&& b.len() >= 4
            &&& is_continuation(b[1])
            &&& is_continuation(b[2])
            &&& is_continuation(b[3])
            &&& valid_utf8(byte_tail(b, 4))
        } else if x == 0xF4 {
            &&& b.len() >= 4
            &&& 0x80 <= b[1] <= 0x8F
            &&& is_continuation(b[2])
            &&& is_continuation(b[3])
            &&& valid_utf8(byte_tail(b, 4))
        } else {
            false
        }
    }
}

/// The character sequence a valid UTF-8 byte sequence decodes to. A
/// function of the bytes alone.
pub uninterp spec fn utf8_chars_of(b: Seq<u8>) -> Seq<char>;

/// Relies on `String::from_utf8` from std: it succeeds exactly on byte
/// sequences that are valid UTF-8, and the string it returns is the
/// decoding of those bytes and of nothing else.
#[verifier::external_body]
fn decode_utf8(bytes: Vec<u8>) -> (r: Option<String>)
    ensures
        r is Some <==> valid_utf8(bytes@),
        r matches Some(s) ==> s@ == utf8_chars_of(bytes@),
        r matches Some(s) ==> (s@.len() == 0 <==> bytes@.len() == 0),
{
    match String::from_utf8(bytes) {
        Ok(s) => Some(s),
        Err(_) => None,
    }
}

impl LentFile {
    /// Capture the callback's output into a private channel, drain it to
    /// completion and decode it as text. On an otherwise successful session
    /// this yields exactly the callback's writes, decoded, and fails with
    /// `DecodeFailure` exactly when those bytes are not valid UTF-8.
    pub fn capture_string(&self, world: &mut CaptureWorld, run: &CallbackRun, io: &IoEvents) -> (r:
        CaptureOutcome<String>)
        requires
            old(world).wf(),
            self.valid(*old(world)),
        ensures
            session_post(
                *old(world),
                *final(world),
                self.stream_id(),
                old(world).n_sinks(),
                true,
                *run,
                *io,
            ),
            match session_verdict(*run, *io) {
                CaptureOutcome::Done(_) => if valid_utf8(run.writes@) {
                    r matches CaptureOutcome::Done(s) && s@ == utf8_chars_of(run.writes@)
                } else {
                    r == CaptureOutcome::<String>::Failed(CaptureError::DecodeFailure)
                },
                CaptureOutcome::CallbackAborted => r is CallbackAborted,
                CaptureOutcome::Failed(e) => r == CaptureOutcome::<String>::Failed(e),
            },
            self.valid(*final(world)),
    {
        match self.capture(world, run, io) {
            CaptureOutcome::Done(reader) => {
                let bytes = world.drain(reader);
                match decode_utf8(bytes) {
                    Some(s) => CaptureOutcome::Done(s),
                    None => CaptureOutcome::Failed(CaptureError::DecodeFailure),
                }
            },
            CaptureOutcome::CallbackAborted => CaptureOutcome::CallbackAborted,
            CaptureOutcome::Failed(e) => CaptureOutcome::Failed(e),
        }
    }
}

} // verus!
