//! The vocabulary between a sender and the code that drives it.
//!
//! A sender never touches a file or a stream. It is a function from a state
//! and the reply to its last request to either a new state with the next
//! request, or the final result. The driver performs each request on the
//! real handles and hands back what happened. A reply that does not answer
//! the pending request changes nothing: the sender asks again. The first
//! request is had in this way, with [`Reply::Start`].

use vstd::prelude::*;
use crate::error::{ErrorKind, SendError};

verus! {

/// One piece of outside work that a sender asks for.
#[derive(Clone, Copy, Debug, PartialEq, Eq)]
pub enum Request {
    /// Report the file's length.
    Length,
    /// Make one attempt with the native primitive, starting at `offset`.
    /// On Linux `length` is the most that may be moved. On FreeBSD and on
    /// Apple systems a `length` of zero stands for "up to the end of the
    /// file"; only the senders of whole files ask for that.
    Sendfile { offset: i64, length: u64 },
    /// Move the file's read position to `position`, counted from the start.
    Seek { position: u64 },
    /// Copy from the file's read position to the stream until the file is
    /// exhausted.
    Copy,
    /// As `Copy`, but stop after `length` bytes.
    CopyUpTo { length: u64 },
}

/// What came of a request.
#[derive(Clone, Copy, Debug, PartialEq, Eq)]
pub enum Reply {
    /// Nothing was asked yet.
    Start,
    /// The file's length, or why it could not be had.
    Length(Result<u64, ErrorKind>),
    /// A native attempt on Linux: the bytes moved, or the error and the
    /// bytes moved before it.
    Sent(Result<u64, (ErrorKind, u64)>),
    /// A native attempt on FreeBSD or an Apple system: everything asked for
    /// was moved, or the error and the bytes moved before it.
    SentAll(Result<(), (ErrorKind, u64)>),
    /// The read position was moved, or why it could not be.
    Sought(Result<(), ErrorKind>),
    /// An ordinary copy ran to its end and moved this many bytes, or failed.
    Copied(Result<u64, ErrorKind>),
}

/// Whether `reply` is the kind of reply that `request` asks for.
pub open spec fn answers(request: Request, reply: Reply) -> bool {
    match request {
        Request::Length => reply is Length,
        Request::Sendfile { .. } => reply is Sent || reply is SentAll,
        Request::Seek { .. } => reply is Sought,
        Request::Copy => reply is Copied,
        Request::CopyUpTo { .. } => reply is Copied,
    }
}

/// Where a sender stands after a reply.
#[derive(Debug, PartialEq, Eq)]
pub enum Step<S, T> {
    /// The driver performs the request and calls the sender again with the
    /// state and the reply.
    Continue(S, Request),
    /// The operation is over and succeeded, with this result.
    Done(T),
    /// The operation is over and failed.
    Failed(SendError),
}

} // verus!
