//! Sending by ordinary copying: the only way where the platform has no
//! native primitive, and the way on after a native sender has reached the
//! end of what its offsets can address.

use vstd::prelude::*;
use crate::error::{check_error, is_transient, SendError};
use crate::protocol::{Reply, Request, Step};

verus! {

/// State of [`copy_to_end`].
#[derive(Clone, Copy, Debug, PartialEq, Eq)]
pub enum CopyToEnd {
    /// The file still has to be positioned at `offset`.
    Seeking { offset: u64 },
    /// The file is positioned; copies run until one finds nothing left.
    Copying,
}

/// What [`copy_to_end`] returns.
pub open spec fn copy_to_end_spec(state: CopyToEnd, reply: Reply) -> Step<CopyToEnd, ()> {
    match state {
        CopyToEnd::Seeking { offset } => match reply {
            Reply::Sought(Ok(_)) => Step::Continue(CopyToEnd::Copying, Request::Copy),
            Reply::Sought(Err(kind)) => Step::Failed(SendError::Os(kind)),
            _ => Step::Continue(state, Request::Seek { position: offset }),
        },
        CopyToEnd::Copying => match reply {
            Reply::Copied(Ok(copied)) => if copied == 0 {
                Step::Done(())
            } else {
                Step::Continue(state, Request::Copy)
            },
            Reply::Copied(Err(kind)) => if is_transient(kind) {
                Step::Continue(state, Request::Copy)
            } else {
                Step::Failed(SendError::Os(kind))
            },
            _ => Step::Continue(state, Request::Copy),
        },
    }
}

/// Sends everything from `offset` to the end of the file.
///
/// The file is positioned once. Then copies are asked for until one reports
/// that it moved nothing, which is the only way to succeed. A transient
/// error repeats the copy, any other error ends the operation, and so does
/// a failure to position the file. A reply that does not answer the pending
/// request leaves the state as it is and repeats the request.
pub fn copy_to_end(state: CopyToEnd, reply: Reply) -> (step: Step<CopyToEnd, ()>)
    ensures
        step == copy_to_end_spec(state, reply),
        step is Done <==> state is Copying && reply == Reply::Copied(Ok(0)),
        step matches Step::Continue(_, request) ==> request is Seek || request is Copy,
{
    match state {
        CopyToEnd::Seeking { offset } => match reply {
            Reply::Sought(Ok(_)) => Step::Continue(CopyToEnd::Copying, Request::Copy),
            Reply::Sought(Err(kind)) => Step::Failed(SendError::Os(kind)),
            _ => Step::Continue(state, Request::Seek { position: offset }),
        },
        CopyToEnd::Copying => match reply {
            Reply::Copied(Ok(copied)) => {
                if copied == 0 {
                    Step::Done(())
                } else {
                    Step::Continue(state, Request::Copy)
                }
            },
            Reply::Copied(Err(kind)) => {
                if check_error(kind) {
                    Step::Continue(state, Request::Copy)
                } else {
                    Step::Failed(SendError::Os(kind))
                }
            },
            _ => Step::Continue(state, Request::Copy),
        },
    }
}

/// State of [`send_file_imp`]: the file's length and the bytes that the
/// copies so far have reported.
#[derive(Clone, Copy, Debug, PartialEq, Eq)]
pub struct SendFileImp {
    pub length: u64,
    pub sent: u64,
}

/// What [`send_file_imp`] returns.
pub open spec fn send_file_imp_spec(state: SendFileImp, reply: Reply) -> Step<SendFileImp, ()> {
    match reply {
        Reply::Copied(Ok(copied)) => if copied == 0 || state.sent + copied >= state.length {
            Step::Done(())
        } else {
            Step::Continue(
                SendFileImp { length: state.length, sent: (state.sent + copied) as u64 },
                Request::Copy,
            )
        },
        Reply::Copied(Err(kind)) => if is_transient(kind) {
            Step::Continue(state, Request::Copy)
        } else {
            Step::Failed(SendError::Os(kind))
        },
        _ => Step::Continue(state, Request::Copy),
    }
}

/// Sends a file of `state.length` bytes from its read position on.
///
/// Copies are asked for until their counts add up to the length, or until
/// one reports that it moved nothing: the source is then exhausted. Before
/// that the operation never succeeds. A transient error repeats the copy and
/// counts nothing; any other error ends the operation. At least one copy is
/// asked for, whatever the length.
pub fn send_file_imp(state: SendFileImp, reply: Reply) -> (step: Step<SendFileImp, ()>)
    ensures
        step == send_file_imp_spec(state, reply),
        step is Done <==> (reply matches Reply::Copied(Ok(copied)) && (copied == 0 || state.sent
            + copied >= state.length)),
        step matches Step::Continue(next, request) ==> request is Copy && next.length
            == state.length && state.sent <= next.sent,
{
    match reply {
        Reply::Copied(Ok(copied)) => {
            if copied == 0 || state.sent >= state.length || copied >= state.length - state.sent {
                Step::Done(())
            } else {
                Step::Continue(
                    SendFileImp { length: state.length, sent: state.sent + copied },
                    Request::Copy,
                )
            }
        },
        Reply::Copied(Err(kind)) => {
            if check_error(kind) {
                Step::Continue(state, Request::Copy)
            } else {
                Step::Failed(SendError::Os(kind))
            }
        },
        _ => Step::Continue(state, Request::Copy),
    }
}

/// State of [`send_file`].
#[derive(Clone, Copy, Debug, PartialEq, Eq)]
pub enum SendFile {
    /// The file's length is not known yet.
    Probing,
    /// The file is being copied.
    Copying(SendFileImp),
}

/// A step of [`send_file_imp`] as a step of [`send_file`].
pub open spec fn copying(step: Step<SendFileImp, ()>) -> Step<SendFile, ()> {
    match step {
        Step::Continue(state, request) => Step::Continue(SendFile::Copying(state), request),
        Step::Done(done) => Step::Done(done),
        Step::Failed(error) => Step::Failed(error),
    }
}

/// What [`send_file`] returns.
pub open spec fn send_file_spec(state: SendFile, reply: Reply) -> Step<SendFile, ()> {
    match state {
        SendFile::Probing => match reply {
            Reply::Length(Ok(length)) => if length == 0 {
                Step::Done(())
            } else {
                Step::Continue(SendFile::Copying(SendFileImp { length, sent: 0 }), Request::Copy)
            },
            Reply::Length(Err(kind)) => Step::Failed(SendError::Os(kind)),
            _ => Step::Continue(state, Request::Length),
        },
        SendFile::Copying(imp) => copying(send_file_imp_spec(imp, reply)),
    }
}

/// Sends a whole file by ordinary copying.
///
/// The length is asked for first. An empty file is done at once, with no
/// copy; a length that cannot be had ends the operation with that error.
/// Otherwise [`send_file_imp`] takes over.
pub fn send_file(state: SendFile, reply: Reply) -> (step: Step<SendFile, ()>)
    ensures
        step == send_file_spec(state, reply),
        state is Probing && reply == Reply::Length(Ok(0)) ==> step is Done,
        step matches Step::Continue(_, request) ==> request is Length || request is Copy,
{
    match state {
        SendFile::Probing => match reply {
            Reply::Length(Ok(length)) => {
                if length == 0 {
                    Step::Done(())
                } else {
                    Step::Continue(
                        SendFile::Copying(SendFileImp { length, sent: 0 }),
                        Request::Copy,
                    )
                }
            },
            Reply::Length(Err(kind)) => Step::Failed(SendError::Os(kind)),
            _ => Step::Continue(state, Request::Length),
        },
        SendFile::Copying(imp) => match send_file_imp(imp, reply) {
            Step::Continue(next, request) => Step::Continue(SendFile::Copying(next), request),
            Step::Done(done) => Step::Done(done),
            Step::Failed(error) => Step::Failed(error),
        },
    }
}

/// State of [`send_exact`].
#[derive(Clone, Copy, Debug, PartialEq, Eq)]
pub enum SendExact {
    /// The file still has to be positioned at `offset`.
    Seeking { length: u64, offset: u64 },
    /// The file is positioned; one copy of at most `length` bytes is due.
    Copying { length: u64 },
}

/// What [`send_exact`] returns.
pub open spec fn send_exact_spec(state: SendExact, reply: Reply) -> Step<SendExact, u64> {
    match state {
        SendExact::Seeking { length, offset } => match reply {
            Reply::Sought(Ok(_)) => Step::Continue(
                SendExact::Copying { length },
                Request::CopyUpTo { length },
            ),
            Reply::Sought(Err(kind)) => Step::Failed(SendError::Os(kind)),
            _ => Step::Continue(state, Request::Seek { position: offset }),
        },
        SendExact::Copying { length } => match reply {
            Reply::Copied(Ok(copied)) => Step::Done(copied),
            Reply::Copied(Err(kind)) => Step::Failed(SendError::Os(kind)),
            _ => Step::Continue(state, Request::CopyUpTo { length }),
        },
    }
}

/// Sends at most `length` bytes from `offset` on by ordinary copying.
///
/// The file is positioned at `offset`, then one bounded copy is asked for
/// and its count is the result. No offset is out of range here. Every
/// error, transient or not, ends the operation.
pub fn send_exact(state: SendExact, reply: Reply) -> (step: Step<SendExact, u64>)
    ensures
        step == send_exact_spec(state, reply),
        step matches Step::Done(sent) ==> reply == Reply::Copied(Ok(sent)),
{
    match state {
        SendExact::Seeking { length, offset } => match reply {
            Reply::Sought(Ok(_)) => Step::Continue(
                SendExact::Copying { length },
                Request::CopyUpTo { length },
            ),
            Reply::Sought(Err(kind)) => Step::Failed(SendError::Os(kind)),
            _ => Step::Continue(state, Request::Seek { position: offset }),
        },
        SendExact::Copying { length } => match reply {
            Reply::Copied(Ok(copied)) => Step::Done(copied),
            Reply::Copied(Err(kind)) => Step::Failed(SendError::Os(kind)),
            _ => Step::Continue(state, Request::CopyUpTo { length }),
        },
    }
}

} // verus!
