//! macOS and iOS: `sendfile(2)` takes the offset by value, takes the length
//! by reference and leaves the bytes it moved there, and reads a length of
//! zero as "up to the end of the file".

use vstd::prelude::*;
use crate::error::{check_error, is_transient, ErrorKind, SendError};
use crate::fallback::{copy_to_end, copy_to_end_spec, CopyToEnd};
use crate::protocol::{Reply, Request, Step};

verus! {

/// The largest offset that the native primitive can address: the largest
/// value of its signed 64-bit offset type.
pub const MAX_OFFSET: u64 = 0x7fff_ffff_ffff_ffff;

/// The most that one call of the native primitive can be asked for: the
/// largest value of the signed 64-bit type that holds its length.
pub const MAX_CHUNK: u64 = 0x7fff_ffff_ffff_ffff;

/// A count of bytes as the system reported it, with a negative one read as
/// nothing.
pub open spec fn progress(reported: i64) -> u64 {
    if reported >= 0 {
        reported as u64
    } else {
        0
    }
}

/// What [`try_sendfile`] returns.
pub open spec fn try_sendfile_spec(returned: i32, length: i64, error: ErrorKind) -> Result<
    (),
    (ErrorKind, u64),
> {
    if returned == -1 {
        Err((error, progress(length)))
    } else {
        Ok(())
    }
}

/// Reads the outcome of one call of the native primitive.
///
/// `returned` is the call's return value, `length` the length parameter
/// as the call left it, which is the bytes moved, and `error` the kind of
/// the error that the system reports for the thread. A return value of -1 is a failure:
/// the result is the error with the bytes moved before it. Any other return
/// value is success. No count in the result is negative.
pub fn try_sendfile(returned: i32, length: i64, error: ErrorKind) -> (result: Result<
    (),
    (ErrorKind, u64),
>)
    ensures
        result == try_sendfile_spec(returned, length, error),
        result is Ok <==> returned != -1,
        length >= 0 ==> progress(length) == length,
{
    if returned == -1 {
        let moved: u64 = if length >= 0 {
            length as u64
        } else {
            0
        };
        Err((error, moved))
    } else {
        Ok(())
    }
}

/// State of [`send_file`].
#[derive(Clone, Copy, Debug, PartialEq, Eq)]
pub enum SendFile {
    /// The first `offset` bytes of the file are sent.
    Transmitting { offset: u64 },
    /// The offset has left the native range; ordinary copying sends the
    /// rest.
    Fallback(CopyToEnd),
}

/// A step of [`copy_to_end`] as a step of [`send_file`].
pub open spec fn handed_off(step: Step<CopyToEnd, ()>) -> Step<SendFile, ()> {
    match step {
        Step::Continue(state, request) => Step::Continue(SendFile::Fallback(state), request),
        Step::Done(done) => Step::Done(done),
        Step::Failed(error) => Step::Failed(error),
    }
}

/// The position at which ordinary copying takes over after `sent` bytes:
/// that count, or the largest position there is where the count is beyond
/// it.
pub open spec fn handover(sent: int) -> u64 {
    if sent > u64::MAX {
        u64::MAX
    } else {
        sent as u64
    }
}

/// Where the sender stands once `sent` bytes of the file are sent: the next
/// native attempt from there to the end of the file, or, where that offset
/// is beyond [`MAX_OFFSET`], the hand-over to ordinary copying at exactly
/// that position.
pub open spec fn resume(sent: int) -> Step<SendFile, ()> {
    if sent > MAX_OFFSET {
        Step::Continue(
            SendFile::Fallback(CopyToEnd::Seeking { offset: handover(sent) }),
            Request::Seek { position: handover(sent) },
        )
    } else {
        Step::Continue(
            SendFile::Transmitting { offset: sent as u64 },
            Request::Sendfile { offset: sent as i64, length: 0 },
        )
    }
}

/// An interruption before a single byte was moved. It is fatal: tried
/// again, it could come back without end.
pub open spec fn is_stalled(kind: ErrorKind, sent: u64) -> bool {
    kind == ErrorKind::Interrupted && sent == 0
}

/// What [`send_file`] returns.
pub open spec fn send_file_spec(state: SendFile, reply: Reply) -> Step<SendFile, ()> {
    match state {
        SendFile::Transmitting { offset } => match reply {
            Reply::SentAll(Ok(_)) => Step::Done(()),
            Reply::SentAll(Err((kind, sent))) => if is_transient(kind) && !is_stalled(kind, sent) {
                resume(offset + sent)
            } else {
                Step::Failed(SendError::Os(kind))
            },
            _ => resume(offset as int),
        },
        SendFile::Fallback(copy) => handed_off(copy_to_end_spec(copy, reply)),
    }
}

fn resume_at(offset: u64, sent: u64) -> (step: Step<SendFile, ()>)
    ensures
        step == resume(offset + sent),
{
    let position: u64 = offset.saturating_add(sent);
    if position > MAX_OFFSET {
        Step::Continue(
            SendFile::Fallback(CopyToEnd::Seeking { offset: position }),
            Request::Seek { position },
        )
    } else {
        Step::Continue(
            SendFile::Transmitting { offset: position },
            Request::Sendfile { offset: position as i64, length: 0 },
        )
    }
}

/// Sends a whole file with the native primitive.
///
/// The length is never asked for: each attempt runs from the current offset
/// to the end of the file, and the first that succeeds ends the operation.
/// After a transient error the bytes moved before it are added to the
/// offset and the attempt is repeated; any other error ends the operation,
/// and so does an interruption that moved nothing.
/// Where the offset would pass [`MAX_OFFSET`], [`copy_to_end`] takes over at
/// the position reached, and its result is the result. No attempt is asked
/// for at an offset that is negative or beyond [`MAX_OFFSET`].
pub fn send_file(state: SendFile, reply: Reply) -> (step: Step<SendFile, ()>)
    ensures
        step == send_file_spec(state, reply),
        step matches Step::Continue(next, Request::Sendfile { offset, length }) ==> {
            &&& next matches SendFile::Transmitting { offset: sent }
            &&& 0 <= offset <= MAX_OFFSET
            &&& offset == sent
            &&& length == 0
        },
        state is Fallback ==> !(step matches Step::Continue(_, Request::Sendfile { .. })),
        state is Fallback ==> (step matches Step::Continue(next, _) ==> next is Fallback),
        state is Transmitting && reply == Reply::SentAll(Err((ErrorKind::Interrupted, 0u64)))
            ==> step == Step::<SendFile, ()>::Failed(SendError::Os(ErrorKind::Interrupted)),
{
    match state {
        SendFile::Transmitting { offset } => match reply {
            Reply::SentAll(Ok(_)) => Step::Done(()),
            Reply::SentAll(Err((kind, sent))) => {
                if check_error(kind) && !(kind == ErrorKind::Interrupted && sent == 0) {
                    resume_at(offset, sent)
                } else {
                    Step::Failed(SendError::Os(kind))
                }
            },
            _ => resume_at(offset, 0),
        },
        SendFile::Fallback(copy) => match copy_to_end(copy, reply) {
            Step::Continue(next, request) => Step::Continue(SendFile::Fallback(next), request),
            Step::Done(done) => Step::Done(done),
            Step::Failed(error) => Step::Failed(error),
        },
    }
}

/// State of [`send_exact`]: what was asked for.
#[derive(Clone, Copy, Debug, PartialEq, Eq)]
pub struct SendExact {
    pub length: u64,
    pub offset: u64,
}

/// The length that one attempt is asked for: the requested one, cut down to
/// [`MAX_CHUNK`].
pub open spec fn chunk(length: u64) -> u64 {
    if length > MAX_CHUNK {
        MAX_CHUNK
    } else {
        length
    }
}

/// What [`send_exact`] returns.
pub open spec fn send_exact_spec(state: SendExact, reply: Reply) -> Step<SendExact, u64> {
    if state.offset > MAX_OFFSET {
        Step::Failed(SendError::OffsetTooLarge)
    } else if state.length == 0 {
        Step::Done(0)
    } else {
        match reply {
            Reply::SentAll(Ok(_)) => Step::Done(chunk(state.length)),
            Reply::SentAll(Err((kind, _))) => Step::Failed(SendError::Os(kind)),
            _ => Step::Continue(
                state,
                Request::Sendfile { offset: state.offset as i64, length: chunk(state.length) },
            ),
        }
    }
}

/// Sends `length` bytes from `offset` on, in one native attempt.
///
/// An offset beyond [`MAX_OFFSET`] fails at once with
/// [`SendError::OffsetTooLarge`], whatever the reply, and no attempt is
/// asked for. A range of no length is done at once, with a count of zero
/// and without an attempt: the primitive would read a length of zero as a
/// request for the rest of the file. Otherwise one attempt is asked for, at
/// that offset and for the length cut down to [`MAX_CHUNK`]. Where it
/// succeeds, the result is the length that was asked of it. Every error,
/// transient or not, ends the operation, and what was moved before it is
/// not reported.
pub fn send_exact(state: SendExact, reply: Reply) -> (step: Step<SendExact, u64>)
    ensures
        step == send_exact_spec(state, reply),
        state.offset > MAX_OFFSET <==> step == Step::<SendExact, u64>::Failed(
            SendError::OffsetTooLarge,
        ),
        state.offset <= MAX_OFFSET && state.length == 0 ==> step == Step::<SendExact, u64>::Done(
            0,
        ),
        step matches Step::Continue(_, request) ==> request == (Request::Sendfile {
            offset: state.offset as i64,
            length: chunk(state.length),
        }) && 0 < chunk(state.length) <= MAX_CHUNK,
        step matches Step::Done(sent) ==> sent == chunk(state.length) && (state.length > 0
            ==> reply is SentAll),
{
    if state.offset > MAX_OFFSET {
        return Step::Failed(SendError::OffsetTooLarge);
    }
    if state.length == 0 {
        return Step::Done(0);
    }
    let length: u64 = if state.length > MAX_CHUNK {
        MAX_CHUNK
    } else {
        state.length
    };
    match reply {
        Reply::SentAll(Ok(_)) => Step::Done(length),
        Reply::SentAll(Err((kind, _))) => Step::Failed(SendError::Os(kind)),
        _ => Step::Continue(state, Request::Sendfile { offset: state.offset as i64, length }),
    }
}

} // verus!
