//! Linux and Android: `sendfile(2)` takes the offset by reference, moves
//! at most `count` bytes and returns how many it moved.

use vstd::prelude::*;
use crate::error::{check_error, is_transient, ErrorKind, SendError};
use crate::fallback::{copy_to_end, copy_to_end_spec, CopyToEnd};
use crate::protocol::{Reply, Request, Step};

verus! {

/// The largest offset that the native primitive can address: the largest
/// value of its signed 64-bit offset type. A file is sent natively up to
/// this length; what lies beyond is left to ordinary copying.
pub const MAX_LENGTH: u64 = 0x7fff_ffff_ffff_ffff;

/// The most that one call of the native primitive moves.
pub const MAX_CHUNK: u64 = 0x7fff_f000;

/// The bytes that a call moved, as the offset shows it: the distance from
/// the offset handed in to the offset as the call left it, and nothing where
/// the offset did not advance.
pub open spec fn moved(initial_offset: i64, offset: i64) -> u64 {
    if offset >= initial_offset {
        (offset - initial_offset) as u64
    } else {
        0
    }
}

/// What [`try_sendfile`] returns.
pub open spec fn try_sendfile_spec(
    returned: isize,
    initial_offset: i64,
    offset: i64,
    error: ErrorKind,
) -> Result<u64, (ErrorKind, u64)> {
    if returned < 0 {
        Err((error, moved(initial_offset, offset)))
    } else {
        Ok(returned as u64)
    }
}

/// Reads the outcome of one call of the native primitive.
///
/// `returned` is the call's return value, `initial_offset` the offset handed
/// to it, `offset` the same variable after the call and `error` the kind of
/// the error that the system reports for the thread. A negative return value
/// only occurs on failure: the result is then the error with the bytes moved
/// before it, taken from the two offsets. Any other return value is the
/// count of bytes moved. No count in the result is negative.
pub fn try_sendfile(returned: isize, initial_offset: i64, offset: i64, error: ErrorKind) -> (result:
    Result<u64, (ErrorKind, u64)>)
    ensures
        result == try_sendfile_spec(returned, initial_offset, offset, error),
        returned == -1 ==> result == Err::<u64, (ErrorKind, u64)>(
            (error, moved(initial_offset, offset)),
        ),
        returned >= 0 ==> result == Ok::<u64, (ErrorKind, u64)>(returned as u64),
        initial_offset <= offset ==> moved(initial_offset, offset) == offset - initial_offset,
{
    if returned < 0 {
        let progress: u64 = if offset >= initial_offset {
            let distance: i128 = offset as i128 - initial_offset as i128;
            distance as u64
        } else {
            0
        };
        Err((error, progress))
    } else {
        Ok(returned as u64)
    }
}

/// State of [`send_file`].
#[derive(Clone, Copy, Debug, PartialEq, Eq)]
pub enum SendFile {
    /// The file's length is not known yet.
    Probing,
    /// The first `offset` bytes of a file of `length` bytes are sent.
    Transmitting { length: u64, offset: u64 },
    /// The native part is over; ordinary copying sends the rest.
    Fallback(CopyToEnd),
}

/// Where the native part of a file of `length` bytes ends.
pub open spec fn native_end(length: u64) -> u64 {
    if length > MAX_LENGTH {
        MAX_LENGTH
    } else {
        length
    }
}

/// A step of [`copy_to_end`] as a step of [`send_file`].
pub open spec fn handed_off(step: Step<CopyToEnd, ()>) -> Step<SendFile, ()> {
    match step {
        Step::Continue(state, request) => Step::Continue(SendFile::Fallback(state), request),
        Step::Done(done) => Step::Done(done),
        Step::Failed(error) => Step::Failed(error),
    }
}

/// Where the sender stands once `progress` bytes of a file of `length`
/// bytes are sent: the next native attempt, for all that is left of the
/// native part; past the native part, the hand-over to ordinary copying at
/// [`MAX_LENGTH`]; or the end.
pub open spec fn resume(length: u64, progress: int) -> Step<SendFile, ()> {
    if progress < native_end(length) {
        Step::Continue(
            SendFile::Transmitting { length, offset: progress as u64 },
            Request::Sendfile {
                offset: progress as i64,
                length: (native_end(length) - progress) as u64,
            },
        )
    } else if length > MAX_LENGTH {
        Step::Continue(
            SendFile::Fallback(CopyToEnd::Seeking { offset: MAX_LENGTH }),
            Request::Seek { position: MAX_LENGTH },
        )
    } else {
        Step::Done(())
    }
}

/// What [`send_file`] returns.
pub open spec fn send_file_spec(state: SendFile, reply: Reply) -> Step<SendFile, ()> {
    match state {
        SendFile::Probing => match reply {
            Reply::Length(Ok(length)) => resume(length, 0),
            Reply::Length(Err(kind)) => Step::Failed(SendError::Os(kind)),
            _ => Step::Continue(state, Request::Length),
        },
        SendFile::Transmitting { length, offset } => match reply {
            Reply::Sent(Ok(sent)) => resume(length, offset + sent),
            Reply::Sent(Err((kind, sent))) => if is_transient(kind) {
                resume(length, offset + sent)
            } else {
                Step::Failed(SendError::Os(kind))
            },
            _ => resume(length, offset as int),
        },
        SendFile::Fallback(copy) => handed_off(copy_to_end_spec(copy, reply)),
    }
}

fn resume_at(length: u64, offset: u64, sent: u64) -> (step: Step<SendFile, ()>)
    ensures
        step == resume(length, offset + sent),
{
    let end: u64 = if length > MAX_LENGTH {
        MAX_LENGTH
    } else {
        length
    };
    if offset < end && sent < end - offset {
        let progress: u64 = offset + sent;
        Step::Continue(
            SendFile::Transmitting { length, offset: progress },
            Request::Sendfile { offset: progress as i64, length: end - progress },
        )
    } else if length > MAX_LENGTH {
        Step::Continue(
            SendFile::Fallback(CopyToEnd::Seeking { offset: MAX_LENGTH }),
            Request::Seek { position: MAX_LENGTH },
        )
    } else {
        Step::Done(())
    }
}

/// Sends a whole file with the native primitive.
///
/// The length is asked for first; an empty file is done at once and a
/// length that cannot be had ends the operation. Then attempts are asked
/// for, each from the current offset and for all that is left, until the
/// offset has reached the length. The bytes that an attempt moved count
/// whether it succeeded or failed with a transient error; any other error
/// ends the operation. Of a file longer than [`MAX_LENGTH`] the native part
/// ends there, and [`copy_to_end`] sends the rest: its result is the result.
/// No attempt is asked for at an offset that is negative or beyond
/// [`MAX_LENGTH`], nor for more than is left.
pub fn send_file(state: SendFile, reply: Reply) -> (step: Step<SendFile, ()>)
    ensures
        step == send_file_spec(state, reply),
        state is Probing && reply == Reply::Length(Ok(0)) ==> step is Done,
        step matches Step::Continue(next, Request::Sendfile { offset, length }) ==> {
            &&& next matches SendFile::Transmitting { length: whole, offset: progress }
            &&& 0 <= offset < MAX_LENGTH
            &&& offset == progress
            &&& 0 < length
            &&& offset + length == native_end(whole)
        },
        state is Fallback ==> !(step matches Step::Continue(_, Request::Sendfile { .. })),
        state is Fallback ==> (step matches Step::Continue(next, _) ==> next is Fallback),
{
    match state {
        SendFile::Probing => match reply {
            Reply::Length(Ok(length)) => resume_at(length, 0, 0),
            Reply::Length(Err(kind)) => Step::Failed(SendError::Os(kind)),
            _ => Step::Continue(state, Request::Length),
        },
        SendFile::Transmitting { length, offset } => match reply {
            Reply::Sent(Ok(sent)) => resume_at(length, offset, sent),
            Reply::Sent(Err((kind, sent))) => {
                if check_error(kind) {
                    resume_at(length, offset, sent)
                } else {
                    Step::Failed(SendError::Os(kind))
                }
            },
            _ => resume_at(length, offset, 0),
        },
        SendFile::Fallback(copy) => match copy_to_end(copy, reply) {
            Step::Continue(next, request) => Step::Continue(SendFile::Fallback(next), request),
            Step::Done(done) => Step::Done(done),
            Step::Failed(error) => Step::Failed(error),
        },
    }
}

/// State of [`send_exact`]: what was asked for.
#[derive(Clone, Copy, Debug, PartialEq, Eq)]
pub struct SendExact {
    pub length: u64,
    pub offset: u64,
}

/// The length that one attempt is asked for: the requested one, cut down to
/// [`MAX_CHUNK`].
pub open spec fn chunk(length: u64) -> u64 {
    if length > MAX_CHUNK {
        MAX_CHUNK
    } else {
        length
    }
}

/// What [`send_exact`] returns.
pub open spec fn send_exact_spec(state: SendExact, reply: Reply) -> Step<SendExact, u64> {
    if state.offset > MAX_LENGTH {
        Step::Failed(SendError::OffsetTooLarge)
    } else {
        match reply {
            Reply::Sent(Ok(sent)) => Step::Done(sent),
            Reply::Sent(Err((kind, _))) => Step::Failed(SendError::Os(kind)),
            _ => Step::Continue(
                state,
                Request::Sendfile { offset: state.offset as i64, length: chunk(state.length) },
            ),
        }
    }
}

/// Sends at most `length` bytes from `offset` on, in one native attempt.
///
/// An offset beyond [`MAX_LENGTH`] fails at once with
/// [`SendError::OffsetTooLarge`], whatever the reply, and no attempt is
/// asked for. Otherwise one attempt is asked for, at that offset and for the
/// length cut down to [`MAX_CHUNK`]. Its count is the result. Every error,
/// transient or not, ends the operation, and what was moved before it is
/// not reported.
pub fn send_exact(state: SendExact, reply: Reply) -> (step: Step<SendExact, u64>)
    ensures
        step == send_exact_spec(state, reply),
        state.offset > MAX_LENGTH <==> step == Step::<SendExact, u64>::Failed(
            SendError::OffsetTooLarge,
        ),
        step matches Step::Continue(_, request) ==> request == (Request::Sendfile {
            offset: state.offset as i64,
            length: chunk(state.length),
        }) && chunk(state.length) <= MAX_CHUNK,
        step matches Step::Done(sent) ==> reply == Reply::Sent(Ok(sent)),
{
    if state.offset > MAX_LENGTH {
        return Step::Failed(SendError::OffsetTooLarge);
    }
    match reply {
        Reply::Sent(Ok(sent)) => Step::Done(sent),
        Reply::Sent(Err((kind, _))) => Step::Failed(SendError::Os(kind)),
        _ => {
            let length: u64 = if state.length > MAX_CHUNK {
                MAX_CHUNK
            } else {
                state.length
            };
            Step::Continue(state, Request::Sendfile { offset: state.offset as i64, length })
        },
    }
}

} // verus!
