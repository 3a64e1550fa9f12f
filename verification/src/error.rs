//! Errors: the classes the senders tell apart, and what a sender fails with.

use vstd::prelude::*;

verus! {

/// The classes of operating-system errors that the senders tell apart.
#[derive(Clone, Copy, Debug, PartialEq, Eq, Structural)]
pub enum ErrorKind {
    /// The operation would have blocked.
    WouldBlock,
    /// A signal interrupted the operation.
    Interrupted,
    /// The data handed in is not valid for the operation.
    InvalidData,
    /// Any other error.
    Other,
}

/// A transient error asks for the operation to be tried again; every other
/// error is fatal.
pub open spec fn is_transient(kind: ErrorKind) -> bool {
    kind == ErrorKind::WouldBlock || kind == ErrorKind::Interrupted
}

/// Tells transient errors from fatal ones.
pub fn check_error(e: ErrorKind) -> (transient: bool)
    ensures
        transient == is_transient(e),
{
    e == ErrorKind::WouldBlock || e == ErrorKind::Interrupted
}

/// Why a sender gave up.
#[derive(Clone, Copy, Debug, PartialEq, Eq, Structural)]
pub enum SendError {
    /// The operating system failed the last request with an error of this
    /// kind; the caller passes that error on.
    Os(ErrorKind),
    /// The offset lies beyond what the platform's offset type can hold. No
    /// request was made.
    OffsetTooLarge,
}

impl SendError {
    /// The kind under which the error is reported.
    pub open spec fn kind_spec(self) -> ErrorKind {
        match self {
            SendError::Os(kind) => kind,
            SendError::OffsetTooLarge => ErrorKind::InvalidData,
        }
    }

    /// The kind under which the error is reported: the operating system's
    /// own, or `InvalidData` for an offset out of range.
    pub fn kind(&self) -> (kind: ErrorKind)
        ensures
            kind == self.kind_spec(),
    {
        match self {
            SendError::Os(kind) => *kind,
            SendError::OffsetTooLarge => ErrorKind::InvalidData,
        }
    }
}

} // verus!
