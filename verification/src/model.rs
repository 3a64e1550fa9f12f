//! What the requests do to a file and a stream.
//!
//! The senders decide; the operating system moves the bytes. What it does
//! is modelled here, as far as the senders rely on it: a file that nobody
//! else changes, a read position, and the bytes that the stream's peer has
//! received. [`serves`] says which replies, and which changes, may answer a
//! request. An execution is a sequence of replies, each with the world it
//! left behind.

use vstd::prelude::*;
use crate::protocol::{answers, Reply, Request, Step};
use crate::Backend;

verus! {

/// A file, its read position, and what the stream's peer has received.
pub struct World {
    pub file: Seq<u8>,
    pub position: nat,
    pub peer: Seq<u8>,
}

impl World {
    /// The file's length can be reported.
    pub open spec fn valid(self) -> bool {
        self.file.len() <= u64::MAX
    }
}

/// Between `before` and `after`, the `count` bytes of the file from `from`
/// on have reached the peer, in order and after all it had; the file is as
/// it was.
pub open spec fn transfers(before: World, after: World, from: int, count: int) -> bool {
    &&& after.file == before.file
    &&& 0 <= count
    &&& count > 0 ==> 0 <= from && from + count <= before.file.len()
    &&& after.peer == if count > 0 {
        before.peer + before.file.subrange(from, from + count)
    } else {
        before.peer
    }
}

/// How many bytes the file holds from `from` to its end.
pub open spec fn to_end(file: Seq<u8>, from: int) -> int {
    if 0 <= from < file.len() {
        file.len() - from
    } else {
        0
    }
}

/// How many bytes the file holds from `from` on, up to `limit` of them.
pub open spec fn within(file: Seq<u8>, from: int, limit: int) -> int {
    if limit < to_end(file, from) {
        limit
    } else {
        to_end(file, from)
    }
}

/// What a native attempt is to move when all goes well. On FreeBSD and on
/// Apple systems a length of zero asks for everything up to the end.
pub open spec fn wanted(backend: Backend, file: Seq<u8>, offset: int, length: int) -> int {
    if length == 0 && (backend == Backend::FreeBsd || backend == Backend::MacOs) {
        to_end(file, offset)
    } else {
        within(file, offset, length)
    }
}

/// One native attempt. It moves bytes from `offset` on, never more than
/// wanted, and leaves the read position alone. On Linux it reports how many
/// it moved, with or without an error. On FreeBSD and on Apple systems it
/// succeeds only when it moved all that was wanted, and reports the count
/// with an error. Platforms without a native primitive answer no attempt.
pub open spec fn attempts(
    backend: Backend,
    before: World,
    offset: int,
    length: int,
    reply: Reply,
    after: World,
) -> bool {
    &&& after.position == before.position
    &&& match reply {
        Reply::Sent(Ok(sent)) => {
            &&& backend == Backend::Linux
            &&& sent <= wanted(backend, before.file, offset, length)
            &&& transfers(before, after, offset, sent as int)
        },
        Reply::Sent(Err((_, sent))) => {
            &&& backend == Backend::Linux
            &&& sent <= wanted(backend, before.file, offset, length)
            &&& transfers(before, after, offset, sent as int)
        },
        Reply::SentAll(Ok(_)) => {
            &&& backend == Backend::FreeBsd || backend == Backend::MacOs
            &&& transfers(before, after, offset, wanted(backend, before.file, offset, length))
        },
        Reply::SentAll(Err((_, sent))) => {
            &&& backend == Backend::FreeBsd || backend == Backend::MacOs
            &&& sent <= wanted(backend, before.file, offset, length)
            &&& transfers(before, after, offset, sent as int)
        },
        _ => false,
    }
}

/// One ordinary copy of at most `limit` bytes. It moves bytes from the read
/// position on and advances the position by as many. It succeeds only when
/// it moved all there was within the limit, and reports the count. When it
/// fails, it reports no count; it is taken to have passed on all that it
/// read, so that no byte is lost between the file and the stream.
pub open spec fn copies(before: World, limit: int, reply: Reply, after: World) -> bool {
    let moved = after.position - before.position;
    &&& transfers(before, after, before.position as int, moved)
    &&& moved <= limit
    &&& match reply {
        Reply::Copied(Ok(copied)) => copied == moved && moved == within(
            before.file,
            before.position as int,
            limit,
        ),
        Reply::Copied(Err(_)) => true,
        _ => false,
    }
}

/// `reply` answers `request`, and the request turned `before` into `after`.
pub open spec fn serves(
    backend: Backend,
    before: World,
    request: Request,
    reply: Reply,
    after: World,
) -> bool {
    match request {
        Request::Length => {
            &&& after == before
            &&& match reply {
                Reply::Length(Ok(length)) => length == before.file.len(),
                Reply::Length(Err(_)) => true,
                _ => false,
            }
        },
        Request::Sendfile { offset, length } => attempts(
            backend,
            before,
            offset as int,
            length as int,
            reply,
            after,
        ),
        Request::Seek { position } => match reply {
            Reply::Sought(Ok(_)) => after == (World { position: position as nat, ..before }),
            Reply::Sought(Err(_)) => after == before,
            _ => false,
        },
        Request::Copy => copies(before, before.file.len() as int, reply, after),
        Request::CopyUpTo { length } => copies(before, length as int, reply, after),
    }
}

/// A reply, and the world after the request that it answers.
pub struct Event {
    pub reply: Reply,
    pub world: World,
}

/// Where a sender stands after the replies of `events`, handed in one after
/// another from `step` on. `next` is the sender.
pub open spec fn run<S, T>(
    next: spec_fn(S, Reply) -> Step<S, T>,
    step: Step<S, T>,
    events: Seq<Event>,
) -> Step<S, T>
    decreases events.len(),
{
    if events.len() == 0 {
        step
    } else {
        match step {
            Step::Continue(state, _) => run(
                next,
                next(state, events[0].reply),
                events.drop_first(),
            ),
            _ => step,
        }
    }
}

/// The events are what a driver can see: each reply answers the request
/// that was pending, in the world that the event before it left, and
/// nothing follows the end of the operation.
pub open spec fn faithful<S, T>(
    backend: Backend,
    next: spec_fn(S, Reply) -> Step<S, T>,
    step: Step<S, T>,
    world: World,
    events: Seq<Event>,
) -> bool
    decreases events.len(),
{
    events.len() > 0 ==> match step {
        Step::Continue(state, request) => {
            &&& serves(backend, world, request, events[0].reply, events[0].world)
            &&& faithful(
                backend,
                next,
                next(state, events[0].reply),
                events[0].world,
                events.drop_first(),
            )
        },
        _ => false,
    }
}

/// The world that the events leave behind.
pub open spec fn outcome(world: World, events: Seq<Event>) -> World {
    if events.len() == 0 {
        world
    } else {
        events.last().world
    }
}

/// Every request leaves the file as it was, a file whose length can be
/// reported stays one, and the reply is of the kind that was asked for.
pub proof fn lemma_serves_keeps_file(
    backend: Backend,
    before: World,
    request: Request,
    reply: Reply,
    after: World,
)
    requires
        serves(backend, before, request, reply, after),
    ensures
        after.file == before.file,
        before.valid() ==> after.valid(),
        answers(request, reply),
{
}

} // verus!
