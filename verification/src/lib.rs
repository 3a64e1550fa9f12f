//! Sending a file's contents to a connected stream, decided step by step.
//!
//! The operating system can move a file to a socket without passing the
//! bytes through the program. Its primitive moves what it can in one call:
//! fewer bytes than asked for, none at all when the socket is not ready, or
//! some and then an error. This crate holds the decisions that turn such
//! calls into "send the whole file" and "send this range": where to resume,
//! which errors to retry, and when to leave the rest to ordinary copying.
//!
//! Nothing here performs a call. Each sender is a function from its state
//! and the reply to its last request to the next [`Step`]; the caller owns
//! the file and the stream and carries the requests out.
//!
//! What the requests do to a file and a stream is stated in [`model`]. On
//! that footing [`delivery`] proves what the senders deliver, and
//! [`recovery`] what they do about errors and limits.

use vstd::prelude::*;

pub mod delivery;
pub mod error;
pub mod fallback;
pub mod freebsd;
pub mod linux;
pub mod macos;
pub mod model;
pub mod protocol;
pub mod recovery;

pub use error::{check_error, ErrorKind, SendError};
pub use protocol::{Reply, Request, Step};

verus! {

/// The ways to send that a platform may offer.
#[derive(Clone, Copy, Debug, PartialEq, Eq, Structural)]
pub enum Backend {
    /// Linux and Android.
    Linux,
    /// FreeBSD and DragonFly BSD.
    FreeBsd,
    /// macOS and iOS.
    MacOs,
    /// Ordinary copying, for every other platform.
    Fallback,
}

/// State of [`send_file`]: that of the chosen backend's sender.
#[derive(Clone, Copy, Debug, PartialEq, Eq)]
pub enum SendFile {
    Linux(linux::SendFile),
    FreeBsd(freebsd::SendFile),
    MacOs(macos::SendFile),
    Fallback(fallback::SendFile),
}

impl SendFile {
    /// The state before anything was asked.
    pub open spec fn new_spec(backend: Backend) -> SendFile {
        match backend {
            Backend::Linux => SendFile::Linux(linux::SendFile::Probing),
            Backend::FreeBsd => SendFile::FreeBsd(freebsd::SendFile::Transmitting { offset: 0 }),
            Backend::MacOs => SendFile::MacOs(macos::SendFile::Transmitting { offset: 0 }),
            Backend::Fallback => SendFile::Fallback(fallback::SendFile::Probing),
        }
    }

    /// The state in which to send a whole file with `backend`. Hand it to
    /// [`send_file`] with [`Reply::Start`] for the first request.
    pub fn new(backend: Backend) -> (state: SendFile)
        ensures
            state == SendFile::new_spec(backend),
    {
        match backend {
            Backend::Linux => SendFile::Linux(linux::SendFile::Probing),
            Backend::FreeBsd => SendFile::FreeBsd(freebsd::SendFile::Transmitting { offset: 0 }),
            Backend::MacOs => SendFile::MacOs(macos::SendFile::Transmitting { offset: 0 }),
            Backend::Fallback => SendFile::Fallback(fallback::SendFile::Probing),
        }
    }

    /// The backend that the state belongs to.
    pub open spec fn backend(self) -> Backend {
        match self {
            SendFile::Linux(_) => Backend::Linux,
            SendFile::FreeBsd(_) => Backend::FreeBsd,
            SendFile::MacOs(_) => Backend::MacOs,
            SendFile::Fallback(_) => Backend::Fallback,
        }
    }
}

/// A step of the Linux sender as a step of [`send_file`].
pub open spec fn on_linux(step: Step<linux::SendFile, ()>) -> Step<SendFile, ()> {
    match step {
        Step::Continue(state, request) => Step::Continue(SendFile::Linux(state), request),
        Step::Done(done) => Step::Done(done),
        Step::Failed(error) => Step::Failed(error),
    }
}

/// A step of the FreeBSD sender as a step of [`send_file`].
pub open spec fn on_freebsd(step: Step<freebsd::SendFile, ()>) -> Step<SendFile, ()> {
    match step {
        Step::Continue(state, request) => Step::Continue(SendFile::FreeBsd(state), request),
        Step::Done(done) => Step::Done(done),
        Step::Failed(error) => Step::Failed(error),
    }
}

/// A step of the macOS sender as a step of [`send_file`].
pub open spec fn on_macos(step: Step<macos::SendFile, ()>) -> Step<SendFile, ()> {
    match step {
        Step::Continue(state, request) => Step::Continue(SendFile::MacOs(state), request),
        Step::Done(done) => Step::Done(done),
        Step::Failed(error) => Step::Failed(error),
    }
}

/// A step of the copying sender as a step of [`send_file`].
pub open spec fn on_fallback(step: Step<fallback::SendFile, ()>) -> Step<SendFile, ()> {
    match step {
        Step::Continue(state, request) => Step::Continue(SendFile::Fallback(state), request),
        Step::Done(done) => Step::Done(done),
        Step::Failed(error) => Step::Failed(error),
    }
}

/// What [`send_file`] returns.
pub open spec fn send_file_spec(state: SendFile, reply: Reply) -> Step<SendFile, ()> {
    match state {
        SendFile::Linux(inner) => on_linux(linux::send_file_spec(inner, reply)),
        SendFile::FreeBsd(inner) => on_freebsd(freebsd::send_file_spec(inner, reply)),
        SendFile::MacOs(inner) => on_macos(macos::send_file_spec(inner, reply)),
        SendFile::Fallback(inner) => on_fallback(fallback::send_file_spec(inner, reply)),
    }
}

/// Sends the whole of a file to a stream.
///
/// The step is that of the backend's own sender, and the state stays with
/// its backend. Transient errors are dealt with here: the operation ends in
/// success or in an error that trying again would not mend. Every request
/// for a native attempt names an offset that the primitive can address.
pub fn send_file(state: SendFile, reply: Reply) -> (step: Step<SendFile, ()>)
    ensures
        step == send_file_spec(state, reply),
        step matches Step::Continue(next, _) ==> next.backend() == state.backend(),
        step matches Step::Continue(_, Request::Sendfile { offset, .. }) ==> 0 <= offset
            <= linux::MAX_LENGTH,
{
    match state {
        SendFile::Linux(inner) => match linux::send_file(inner, reply) {
            Step::Continue(next, request) => Step::Continue(SendFile::Linux(next), request),
            Step::Done(done) => Step::Done(done),
            Step::Failed(error) => Step::Failed(error),
        },
        SendFile::FreeBsd(inner) => match freebsd::send_file(inner, reply) {
            Step::Continue(next, request) => Step::Continue(SendFile::FreeBsd(next), request),
            Step::Done(done) => Step::Done(done),
            Step::Failed(error) => Step::Failed(error),
        },
        SendFile::MacOs(inner) => match macos::send_file(inner, reply) {
            Step::Continue(next, request) => Step::Continue(SendFile::MacOs(next), request),
            Step::Done(done) => Step::Done(done),
            Step::Failed(error) => Step::Failed(error),
        },
        SendFile::Fallback(inner) => match fallback::send_file(inner, reply) {
            Step::Continue(next, request) => Step::Continue(SendFile::Fallback(next), request),
            Step::Done(done) => Step::Done(done),
            Step::Failed(error) => Step::Failed(error),
        },
    }
}

/// State of [`send_exact`]: that of the chosen backend's sender.
#[derive(Clone, Copy, Debug, PartialEq, Eq)]
pub enum SendExact {
    Linux(linux::SendExact),
    FreeBsd(freebsd::SendExact),
    MacOs(macos::SendExact),
    Fallback(fallback::SendExact),
}

impl SendExact {
    /// The state before anything was asked.
    pub open spec fn new_spec(backend: Backend, length: u64, offset: u64) -> SendExact {
        match backend {
            Backend::Linux => SendExact::Linux(linux::SendExact { length, offset }),
            Backend::FreeBsd => SendExact::FreeBsd(freebsd::SendExact { length, offset }),
            Backend::MacOs => SendExact::MacOs(macos::SendExact { length, offset }),
            Backend::Fallback => SendExact::Fallback(
                fallback::SendExact::Seeking { length, offset },
            ),
        }
    }

    /// The state in which to send `length` bytes from `offset` on with
    /// `backend`. Hand it to [`send_exact`] with [`Reply::Start`] for the
    /// first request.
    pub fn new(backend: Backend, length: u64, offset: u64) -> (state: SendExact)
        ensures
            state == SendExact::new_spec(backend, length, offset),
    {
        match backend {
            Backend::Linux => SendExact::Linux(linux::SendExact { length, offset }),
            Backend::FreeBsd => SendExact::FreeBsd(freebsd::SendExact { length, offset }),
            Backend::MacOs => SendExact::MacOs(macos::SendExact { length, offset }),
            Backend::Fallback => SendExact::Fallback(
                fallback::SendExact::Seeking { length, offset },
            ),
        }
    }

    /// The backend that the state belongs to.
    pub open spec fn backend(self) -> Backend {
        match self {
            SendExact::Linux(_) => Backend::Linux,
            SendExact::FreeBsd(_) => Backend::FreeBsd,
            SendExact::MacOs(_) => Backend::MacOs,
            SendExact::Fallback(_) => Backend::Fallback,
        }
    }

    /// The offset at which a native sender starts; the copying sender keeps
    /// none once the file is positioned.
    pub open spec fn native_offset(self) -> Option<u64> {
        match self {
            SendExact::Linux(inner) => Some(inner.offset),
            SendExact::FreeBsd(inner) => Some(inner.offset),
            SendExact::MacOs(inner) => Some(inner.offset),
            SendExact::Fallback(_) => None,
        }
    }
}

/// What [`send_exact`] returns.
pub open spec fn send_exact_spec(state: SendExact, reply: Reply) -> Step<SendExact, u64> {
    match state {
        SendExact::Linux(inner) => match linux::send_exact_spec(inner, reply) {
            Step::Continue(next, request) => Step::Continue(SendExact::Linux(next), request),
            Step::Done(sent) => Step::Done(sent),
            Step::Failed(error) => Step::Failed(error),
        },
        SendExact::FreeBsd(inner) => match freebsd::send_exact_spec(inner, reply) {
            Step::Continue(next, request) => Step::Continue(SendExact::FreeBsd(next), request),
            Step::Done(sent) => Step::Done(sent),
            Step::Failed(error) => Step::Failed(error),
        },
        SendExact::MacOs(inner) => match macos::send_exact_spec(inner, reply) {
            Step::Continue(next, request) => Step::Continue(SendExact::MacOs(next), request),
            Step::Done(sent) => Step::Done(sent),
            Step::Failed(error) => Step::Failed(error),
        },
        SendExact::Fallback(inner) => match fallback::send_exact_spec(inner, reply) {
            Step::Continue(next, request) => Step::Continue(SendExact::Fallback(next), request),
            Step::Done(sent) => Step::Done(sent),
            Step::Failed(error) => Step::Failed(error),
        },
    }
}

/// Sends a given number of bytes from a given offset within a file.
///
/// The step is that of the backend's own sender. One attempt is made and
/// nothing is tried again: every error ends the operation. With a native
/// backend, an offset beyond what the primitive can address fails with
/// [`SendError::OffsetTooLarge`] before anything is asked for. No attempt
/// is asked for with a length that the platform would read as "the rest of
/// the file": a range of no length sends nothing.
pub fn send_exact(state: SendExact, reply: Reply) -> (step: Step<SendExact, u64>)
    ensures
        step == send_exact_spec(state, reply),
        step matches Step::Continue(next, _) ==> next.backend() == state.backend(),
        step == Step::<SendExact, u64>::Failed(SendError::OffsetTooLarge) <==> (
        state.native_offset() matches Some(offset) && offset > linux::MAX_LENGTH),
        step matches Step::Continue(_, Request::Sendfile { length, .. }) ==> state is Linux
            || length > 0,
{
    match state {
        SendExact::Linux(inner) => match linux::send_exact(inner, reply) {
            Step::Continue(next, request) => Step::Continue(SendExact::Linux(next), request),
            Step::Done(sent) => Step::Done(sent),
            Step::Failed(error) => Step::Failed(error),
        },
        SendExact::FreeBsd(inner) => match freebsd::send_exact(inner, reply) {
            Step::Continue(next, request) => Step::Continue(SendExact::FreeBsd(next), request),
            Step::Done(sent) => Step::Done(sent),
            Step::Failed(error) => Step::Failed(error),
        },
        SendExact::MacOs(inner) => match macos::send_exact(inner, reply) {
            Step::Continue(next, request) => Step::Continue(SendExact::MacOs(next), request),
            Step::Done(sent) => Step::Done(sent),
            Step::Failed(error) => Step::Failed(error),
        },
        SendExact::Fallback(inner) => match fallback::send_exact(inner, reply) {
            Step::Continue(next, request) => Step::Continue(SendExact::Fallback(next), request),
            Step::Done(sent) => Step::Done(sent),
            Step::Failed(error) => Step::Failed(error),
        },
    }
}

} // verus!
