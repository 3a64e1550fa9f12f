//! What the senders deliver, proved from the model of the requests.

use vstd::prelude::*;
use crate::fallback::{copy_to_end_spec, send_file_imp_spec, CopyToEnd, SendFileImp};
use crate::model::{faithful, outcome, run, serves, to_end, transfers, Event, World};
use crate::protocol::{Reply, Request, Step};
use crate::{fallback, freebsd, linux, macos};
use crate::{send_exact_spec, send_file_spec, Backend, SendExact, SendFile};

verus! {

/// The sender of whole files, as a function to run.
pub open spec fn file_sender() -> spec_fn(SendFile, Reply) -> Step<SendFile, ()> {
    |state: SendFile, reply: Reply| send_file_spec(state, reply)
}

/// The sender of ranges, as a function to run.
pub open spec fn range_sender() -> spec_fn(SendExact, Reply) -> Step<SendExact, u64> {
    |state: SendExact, reply: Reply| send_exact_spec(state, reply)
}

/// The first step of sending a whole file.
pub open spec fn send_file_start(backend: Backend) -> Step<SendFile, ()> {
    send_file_spec(SendFile::new_spec(backend), Reply::Start)
}

/// The first step of sending `length` bytes from `offset` on.
pub open spec fn send_exact_start(backend: Backend, length: u64, offset: u64) -> Step<
    SendExact,
    u64,
> {
    send_exact_spec(SendExact::new_spec(backend, length, offset), Reply::Start)
}

/// Since the operation began, when the peer had `origin`, it has received
/// the first `count` bytes of the file and nothing else.
pub open spec fn sent_up_to(world: World, origin: Seq<u8>, count: int) -> bool {
    &&& 0 <= count <= world.file.len()
    &&& world.peer == origin + world.file.subrange(0, count)
}

proof fn lemma_prefix_grows(before: World, after: World, origin: Seq<u8>, upto: int, count: int)
    requires
        sent_up_to(before, origin, upto),
        transfers(before, after, upto, count),
    ensures
        sent_up_to(after, origin, upto + count),
{
    if count > 0 {
        assert(after.peer =~= origin + after.file.subrange(0, upto + count));
    }
}

proof fn lemma_whole_prefix(world: World, origin: Seq<u8>)
    requires
        sent_up_to(world, origin, world.file.len() as int),
    ensures
        world.peer == origin + world.file,
{
    assert(world.file.subrange(0, world.file.len() as int) =~= world.file);
}

/// Ordinary copying is on its way to the end of the file: all before the
/// place where it starts, or has got to, is with the peer.
pub open spec fn copying_on(
    state: CopyToEnd,
    request: Request,
    world: World,
    origin: Seq<u8>,
) -> bool {
    match state {
        CopyToEnd::Seeking { offset } => {
            &&& request == Request::Seek { position: offset }
            &&& sent_up_to(world, origin, offset as int)
        },
        CopyToEnd::Copying => {
            &&& request == Request::Copy
            &&& sent_up_to(world, origin, world.position as int)
        },
    }
}

/// A native sender without a length to go by is on its way: all before its
/// offset is with the peer, and the pending attempt starts there.
pub open spec fn streaming_on(
    offset: u64,
    request: Request,
    world: World,
    origin: Seq<u8>,
) -> bool {
    &&& offset <= freebsd::MAX_OFFSET
    &&& request == Request::Sendfile { offset: offset as i64, length: 0 }
    &&& sent_up_to(world, origin, offset as int)
}

/// The sender of whole files is on its way: the state is one of `backend`,
/// the request is the one that the state waits for, and all that the state
/// counts as sent is with the peer, in the file's order.
pub open spec fn on_track(
    backend: Backend,
    state: SendFile,
    request: Request,
    world: World,
    origin: Seq<u8>,
) -> bool {
    match state {
        SendFile::Linux(inner) => backend == Backend::Linux && match inner {
            linux::SendFile::Probing => request == Request::Length && world.peer == origin,
            linux::SendFile::Transmitting { length, offset } => {
                &&& length == world.file.len()
                &&& offset < linux::native_end(length)
                &&& request == Request::Sendfile {
                    offset: offset as i64,
                    length: (linux::native_end(length) - offset) as u64,
                }
                &&& sent_up_to(world, origin, offset as int)
            },
            linux::SendFile::Fallback(copy) => copying_on(copy, request, world, origin),
        },
        SendFile::FreeBsd(inner) => backend == Backend::FreeBsd && match inner {
            freebsd::SendFile::Transmitting { offset } => streaming_on(
                offset,
                request,
                world,
                origin,
            ),
            freebsd::SendFile::Fallback(copy) => copying_on(copy, request, world, origin),
        },
        SendFile::MacOs(inner) => backend == Backend::MacOs && match inner {
            macos::SendFile::Transmitting { offset } => streaming_on(
                offset,
                request,
                world,
                origin,
            ),
            macos::SendFile::Fallback(copy) => copying_on(copy, request, world, origin),
        },
        SendFile::Fallback(inner) => backend == Backend::Fallback && match inner {
            fallback::SendFile::Probing => {
                &&& request == Request::Length
                &&& world.peer == origin
                &&& world.position == 0
            },
            fallback::SendFile::Copying(_) => {
                &&& request == Request::Copy
                &&& sent_up_to(world, origin, world.position as int)
            },
        },
    }
}

/// What holds at every step of sending a whole file: under way the sender
/// is on track, and at a successful end the peer has received the file.
pub open spec fn delivering(
    backend: Backend,
    step: Step<SendFile, ()>,
    world: World,
    origin: Seq<u8>,
) -> bool {
    match step {
        Step::Continue(state, request) => on_track(backend, state, request, world, origin),
        Step::Done(_) => world.peer == origin + world.file,
        Step::Failed(_) => true,
    }
}

proof fn lemma_copy_to_end_step(
    backend: Backend,
    state: CopyToEnd,
    request: Request,
    reply: Reply,
    before: World,
    after: World,
    origin: Seq<u8>,
)
    requires
        before.valid(),
        copying_on(state, request, before, origin),
        serves(backend, before, request, reply, after),
    ensures
        match fallback::copy_to_end_spec(state, reply) {
            Step::Continue(next, asked) => copying_on(next, asked, after, origin),
            Step::Done(_) => after.peer == origin + after.file,
            Step::Failed(_) => true,
        },
{
    match state {
        CopyToEnd::Seeking { offset } => {},
        CopyToEnd::Copying => {
            lemma_prefix_grows(
                before,
                after,
                origin,
                before.position as int,
                after.position - before.position,
            );
            if let Reply::Copied(Ok(copied)) = reply {
                if copied == 0 {
                    lemma_whole_prefix(after, origin);
                }
            }
        },
    }
}

/// One faithful step keeps the sender of whole files on track.
pub proof fn lemma_send_file_step(
    backend: Backend,
    state: SendFile,
    request: Request,
    reply: Reply,
    before: World,
    after: World,
    origin: Seq<u8>,
)
    requires
        before.valid(),
        on_track(backend, state, request, before, origin),
        serves(backend, before, request, reply, after),
    ensures
        delivering(backend, send_file_spec(state, reply), after, origin),
        after.valid(),
        after.file == before.file,
{
    match state {
        SendFile::Linux(inner) => match inner {
            linux::SendFile::Probing => {
                if let Reply::Length(Ok(length)) = reply {
                    assert(after.peer =~= origin + after.file.subrange(0, 0));
                    if length == 0 {
                        lemma_whole_prefix(after, origin);
                    }
                }
            },
            linux::SendFile::Transmitting { length, offset } => {
                match reply {
                    Reply::Sent(Ok(sent)) => {
                        lemma_prefix_grows(before, after, origin, offset as int, sent as int);
                        if offset + sent >= linux::native_end(length) && length
                            <= linux::MAX_LENGTH {
                            lemma_whole_prefix(after, origin);
                        }
                    },
                    Reply::Sent(Err((kind, sent))) => {
                        lemma_prefix_grows(before, after, origin, offset as int, sent as int);
                        if offset + sent >= linux::native_end(length) && length
                            <= linux::MAX_LENGTH {
                            lemma_whole_prefix(after, origin);
                        }
                    },
                    _ => {},
                }
            },
            linux::SendFile::Fallback(copy) => {
                lemma_copy_to_end_step(backend, copy, request, reply, before, after, origin);
            },
        },
        SendFile::FreeBsd(inner) => match inner {
            freebsd::SendFile::Transmitting { offset } => {
                match reply {
                    Reply::SentAll(Ok(_)) => {
                        let count = crate::model::to_end(before.file, offset as int);
                        lemma_prefix_grows(before, after, origin, offset as int, count);
                        lemma_whole_prefix(after, origin);
                    },
                    Reply::SentAll(Err((kind, sent))) => {
                        lemma_prefix_grows(before, after, origin, offset as int, sent as int);
                    },
                    _ => {},
                }
            },
            freebsd::SendFile::Fallback(copy) => {
                lemma_copy_to_end_step(backend, copy, request, reply, before, after, origin);
            },
        },
        SendFile::MacOs(inner) => match inner {
            macos::SendFile::Transmitting { offset } => {
                match reply {
                    Reply::SentAll(Ok(_)) => {
                        let count = crate::model::to_end(before.file, offset as int);
                        lemma_prefix_grows(before, after, origin, offset as int, count);
                        lemma_whole_prefix(after, origin);
                    },
                    Reply::SentAll(Err((kind, sent))) => {
                        lemma_prefix_grows(before, after, origin, offset as int, sent as int);
                    },
                    _ => {},
                }
            },
            macos::SendFile::Fallback(copy) => {
                lemma_copy_to_end_step(backend, copy, request, reply, before, after, origin);
            },
        },
        SendFile::Fallback(inner) => match inner {
            fallback::SendFile::Probing => {
                if let Reply::Length(Ok(length)) = reply {
                    assert(after.peer =~= origin + after.file.subrange(0, 0));
                    if length == 0 {
                        lemma_whole_prefix(after, origin);
                    }
                }
            },
            fallback::SendFile::Copying(imp) => {
                lemma_prefix_grows(
                    before,
                    after,
                    origin,
                    before.position as int,
                    after.position - before.position,
                );
                if let Reply::Copied(Ok(_)) = reply {
                    lemma_whole_prefix(after, origin);
                }
            },
        },
    }
}

proof fn lemma_send_file_run(
    backend: Backend,
    step: Step<SendFile, ()>,
    world: World,
    origin: Seq<u8>,
    events: Seq<Event>,
)
    requires
        world.valid(),
        delivering(backend, step, world, origin),
        faithful(backend, file_sender(), step, world, events),
    ensures
        delivering(backend, run(file_sender(), step, events), outcome(world, events), origin),
        outcome(world, events).file == world.file,
    decreases events.len(),
{
    if events.len() > 0 {
        match step {
            Step::Continue(state, request) => {
                let first = events[0];
                let rest = events.drop_first();
                lemma_send_file_step(
                    backend,
                    state,
                    request,
                    first.reply,
                    world,
                    first.world,
                    origin,
                );
                lemma_send_file_run(
                    backend,
                    send_file_spec(state, first.reply),
                    first.world,
                    origin,
                    rest,
                );
                if rest.len() > 0 {
                    assert(rest.last() == events.last());
                }
            },
            _ => {},
        }
    }
}

/// Whenever sending a whole file ends in success, the peer has received the
/// file: all of its bytes, in order, and nothing besides.
///
/// This holds for every backend and every execution, whatever errors and
/// partial transfers came before the end, and also where ordinary copying
/// took over from a native sender. The copying backend starts at the file's
/// read position, so that has to be the start of the file. The file itself
/// is left as it was.
pub proof fn theorem_send_file_delivers_the_file(
    backend: Backend,
    world: World,
    events: Seq<Event>,
)
    requires
        world.valid(),
        backend == Backend::Fallback ==> world.position == 0,
        faithful(backend, file_sender(), send_file_start(backend), world, events),
    ensures
        run(file_sender(), send_file_start(backend), events) is Done ==> outcome(
            world,
            events,
        ).peer == world.peer + world.file,
        outcome(world, events).file == world.file,
{
    assert(world.peer =~= world.peer + world.file.subrange(0, 0));
    lemma_send_file_run(backend, send_file_start(backend), world, world.peer, events);
}

/// What sending a range may count on: with the FreeBSD and Apple
/// primitives, that a range which is not empty lies within the file. They
/// report the length asked for as sent even where the file ended before
/// it. The other backends count on nothing.
pub open spec fn range_is_plain(backend: Backend, file: Seq<u8>, length: u64, offset: u64) -> bool {
    backend == Backend::FreeBsd || backend == Backend::MacOs ==> length == 0 || offset + length
        <= file.len()
}

/// The most that `backend` asks of one attempt for a range of `length`
/// bytes.
pub open spec fn asked_length(backend: Backend, length: u64) -> u64 {
    match backend {
        Backend::Linux => linux::chunk(length),
        Backend::FreeBsd => freebsd::chunk(length),
        Backend::MacOs => macos::chunk(length),
        Backend::Fallback => length,
    }
}

/// The sender of a range is on its way: nothing has reached the peer since
/// `start`, and the request is the one that the state waits for.
pub open spec fn range_on_track(
    backend: Backend,
    state: SendExact,
    request: Request,
    world: World,
    start: World,
    length: u64,
    offset: u64,
) -> bool {
    &&& world.peer == start.peer
    &&& world.file == start.file
    &&& state.backend() == backend
    &&& match state {
        SendExact::Fallback(fallback::SendExact::Seeking { length: limit, offset: from }) => {
            &&& limit == length
            &&& from == offset
            &&& request == Request::Seek { position: offset }
        },
        SendExact::Fallback(fallback::SendExact::Copying { length: limit }) => {
            &&& limit == length
            &&& world.position == offset
            &&& request == Request::CopyUpTo { length }
        },
        _ => {
            &&& state == SendExact::new_spec(backend, length, offset)
            &&& backend == Backend::Linux || length > 0
            &&& offset <= linux::MAX_LENGTH
            &&& request == Request::Sendfile {
                offset: offset as i64,
                length: asked_length(backend, length),
            }
        },
    }
}

/// What holds at every step of sending a range: under way the sender is on
/// track, and at a successful end the count is no more than was asked for
/// and exactly that many bytes of the file, from `offset` on, have reached
/// the peer since `start`.
pub open spec fn ranging(
    backend: Backend,
    step: Step<SendExact, u64>,
    world: World,
    start: World,
    length: u64,
    offset: u64,
) -> bool {
    match step {
        Step::Continue(state, request) => range_on_track(
            backend,
            state,
            request,
            world,
            start,
            length,
            offset,
        ),
        Step::Done(sent) => {
            &&& sent <= length
            &&& backend != Backend::Linux ==> sent == crate::model::within(
                start.file,
                offset as int,
                asked_length(backend, length) as int,
            )
            &&& transfers(start, world, offset as int, sent as int)
        },
        Step::Failed(_) => true,
    }
}

/// One faithful step keeps the sender of a range on track.
pub proof fn lemma_send_exact_step(
    backend: Backend,
    state: SendExact,
    request: Request,
    reply: Reply,
    before: World,
    after: World,
    start: World,
    length: u64,
    offset: u64,
)
    requires
        start.valid(),
        range_is_plain(backend, start.file, length, offset),
        range_on_track(backend, state, request, before, start, length, offset),
        serves(backend, before, request, reply, after),
    ensures
        ranging(backend, send_exact_spec(state, reply), after, start, length, offset),
        after.file == before.file,
{
}

proof fn lemma_send_exact_run(
    backend: Backend,
    step: Step<SendExact, u64>,
    world: World,
    start: World,
    length: u64,
    offset: u64,
    events: Seq<Event>,
)
    requires
        start.valid(),
        range_is_plain(backend, start.file, length, offset),
        ranging(backend, step, world, start, length, offset),
        world.file == start.file,
        faithful(backend, range_sender(), step, world, events),
    ensures
        ranging(
            backend,
            run(range_sender(), step, events),
            outcome(world, events),
            start,
            length,
            offset,
        ),
        outcome(world, events).file == start.file,
    decreases events.len(),
{
    if events.len() > 0 {
        match step {
            Step::Continue(state, request) => {
                let first = events[0];
                let rest = events.drop_first();
                lemma_send_exact_step(
                    backend,
                    state,
                    request,
                    first.reply,
                    world,
                    first.world,
                    start,
                    length,
                    offset,
                );
                lemma_send_exact_run(
                    backend,
                    send_exact_spec(state, first.reply),
                    first.world,
                    start,
                    length,
                    offset,
                    rest,
                );
                if rest.len() > 0 {
                    assert(rest.last() == events.last());
                }
            },
            _ => {},
        }
    }
}

/// Whenever sending a range ends in success with a count, exactly that many
/// bytes of the file, from `offset` on, have reached the peer, in order and
/// after all it had before; the count is no more than `length`, and the
/// file is left as it was. The read position at the start does not matter.
///
/// With every backend but Linux the count is all that the file holds of
/// the range, up to what one attempt can be asked for; the Linux primitive
/// may stop short of it.
pub proof fn theorem_send_exact_delivers_the_range(
    backend: Backend,
    length: u64,
    offset: u64,
    world: World,
    events: Seq<Event>,
)
    requires
        world.valid(),
        range_is_plain(backend, world.file, length, offset),
        faithful(
            backend,
            range_sender(),
            send_exact_start(backend, length, offset),
            world,
            events,
        ),
    ensures
        run(range_sender(), send_exact_start(backend, length, offset), events) matches Step::Done(
            sent,
        ) ==> {
            &&& sent <= length
            &&& transfers(world, outcome(world, events), offset as int, sent as int)
            &&& offset + length <= world.file.len() ==> outcome(world, events).peer == world.peer
                + world.file.subrange(offset as int, offset + sent)
            &&& backend != Backend::Linux ==> sent == crate::model::within(
                world.file,
                offset as int,
                asked_length(backend, length) as int,
            )
            &&& backend != Backend::Linux && offset + length <= world.file.len() ==> sent
                == asked_length(backend, length)
        },
        outcome(world, events).file == world.file,
{
    let start = send_exact_start(backend, length, offset);
    lemma_send_exact_run(backend, start, world, world, length, offset, events);
    if let Step::Done(sent) = run(range_sender(), start, events) {
        if offset + length <= world.file.len() && sent == 0 {
            assert(world.peer =~= world.peer + world.file.subrange(
                offset as int,
                offset as int,
            ));
        }
    }
}

/// One call to send a range: what was asked for, and what the driver saw.
pub struct Call {
    pub length: u64,
    pub offset: u64,
    pub events: Seq<Event>,
}

impl Call {
    /// Where the call ended.
    pub open spec fn end(self, backend: Backend) -> Step<SendExact, u64> {
        run(range_sender(), send_exact_start(backend, self.length, self.offset), self.events)
    }

    /// The count that the call returned, if it ended in success.
    pub open spec fn sent(self, backend: Backend) -> int {
        match self.end(backend) {
            Step::Done(sent) => sent as int,
            _ => 0,
        }
    }
}

/// The calls were made one after another on one file and one stream, from
/// `world` on: each is a faithful execution that begins in the world that
/// the call before it left, asks for a range within the file and ends in
/// success.
pub open spec fn in_sequence(backend: Backend, world: World, calls: Seq<Call>) -> bool
    decreases calls.len(),
{
    calls.len() > 0 ==> {
        let call = calls[0];
        &&& call.offset + call.length <= world.file.len()
        &&& faithful(
            backend,
            range_sender(),
            send_exact_start(backend, call.length, call.offset),
            world,
            call.events,
        )
        &&& call.end(backend) is Done
        &&& in_sequence(backend, outcome(world, call.events), calls.drop_first())
    }
}

/// The world that the calls leave behind.
pub open spec fn after_calls(world: World, calls: Seq<Call>) -> World
    decreases calls.len(),
{
    if calls.len() == 0 {
        world
    } else {
        after_calls(outcome(world, calls[0].events), calls.drop_first())
    }
}

/// The bytes of the ranges that the calls report as sent, one range after
/// another in the order of the calls.
pub open spec fn ranges_sent(backend: Backend, file: Seq<u8>, calls: Seq<Call>) -> Seq<u8>
    decreases calls.len(),
{
    if calls.len() == 0 {
        Seq::empty()
    } else {
        file.subrange(calls[0].offset as int, calls[0].offset + calls[0].sent(backend))
            + ranges_sent(backend, file, calls.drop_first())
    }
}

/// The bytes that the calls report as sent, in all.
pub open spec fn total_sent(backend: Backend, calls: Seq<Call>) -> int
    decreases calls.len(),
{
    if calls.len() == 0 {
        0
    } else {
        calls[0].sent(backend) + total_sent(backend, calls.drop_first())
    }
}

/// Each call begins where the one before it ended, the first at `from`.
pub open spec fn end_to_end(backend: Backend, calls: Seq<Call>, from: int) -> bool
    decreases calls.len(),
{
    calls.len() > 0 ==> {
        &&& calls[0].offset == from
        &&& end_to_end(backend, calls.drop_first(), from + calls[0].sent(backend))
    }
}

/// However many ranges are sent one after another, they arrive one after
/// another: the peer has what it had, then the bytes of each range as the
/// file holds them, in the order of the calls. No call is touched by those
/// before it, whatever their ranges and wherever they left the read
/// position. The file is left as it was.
pub proof fn theorem_send_exact_any_number_in_sequence(
    backend: Backend,
    world: World,
    calls: Seq<Call>,
)
    requires
        world.valid(),
        in_sequence(backend, world, calls),
    ensures
        after_calls(world, calls).peer == world.peer + ranges_sent(backend, world.file, calls),
        after_calls(world, calls).file == world.file,
    decreases calls.len(),
{
    if calls.len() == 0 {
        assert(world.peer =~= world.peer + Seq::<u8>::empty());
    } else {
        let call = calls[0];
        let between = outcome(world, call.events);
        theorem_send_exact_delivers_the_range(
            backend,
            call.length,
            call.offset,
            world,
            call.events,
        );
        theorem_send_exact_any_number_in_sequence(backend, between, calls.drop_first());
        assert(after_calls(world, calls).peer =~= world.peer + ranges_sent(
            backend,
            world.file,
            calls,
        ));
    }
}

/// Ranges that follow one another end to end, sent one after another, put
/// that stretch of the file together again: the peer has what it had and
/// then the file's bytes from the first offset on, as many as the calls
/// report. Where the first range begins at the start of the file and the
/// counts add up to its length, that is the whole file.
pub proof fn theorem_send_exact_reassembles_the_file(
    backend: Backend,
    world: World,
    calls: Seq<Call>,
    from: int,
)
    requires
        world.valid(),
        0 <= from <= world.file.len(),
        in_sequence(backend, world, calls),
        end_to_end(backend, calls, from),
    ensures
        0 <= total_sent(backend, calls),
        from + total_sent(backend, calls) <= world.file.len(),
        after_calls(world, calls).peer == world.peer + world.file.subrange(
            from,
            from + total_sent(backend, calls),
        ),
        from == 0 && total_sent(backend, calls) == world.file.len() ==> after_calls(
            world,
            calls,
        ).peer == world.peer + world.file,
    decreases calls.len(),
{
    if calls.len() == 0 {
        assert(world.peer =~= world.peer + world.file.subrange(from, from));
    } else {
        let call = calls[0];
        let between = outcome(world, call.events);
        let sent = call.sent(backend);
        theorem_send_exact_delivers_the_range(
            backend,
            call.length,
            call.offset,
            world,
            call.events,
        );
        assert(0 <= sent <= call.length);
        assert(between.peer == world.peer + world.file.subrange(from, from + sent));
        theorem_send_exact_reassembles_the_file(backend, between, calls.drop_first(), from + sent);
        let more = total_sent(backend, calls.drop_first());
        assert(between.file == world.file);
        assert(total_sent(backend, calls) == sent + more);
        assert(after_calls(world, calls) == after_calls(between, calls.drop_first()));
        assert(world.file.subrange(from, from + sent) + world.file.subrange(
            from + sent,
            from + sent + more,
        ) =~= world.file.subrange(from, from + sent + more));
        assert(after_calls(world, calls).peer =~= world.peer + world.file.subrange(
            from,
            from + total_sent(backend, calls),
        ));
    }
    if from == 0 && total_sent(backend, calls) == world.file.len() {
        assert(world.file.subrange(0, world.file.len() as int) =~= world.file);
    }
}

/// The sender that copies to the end of the file, as a function to run.
pub open spec fn copy_sender() -> spec_fn(CopyToEnd, Reply) -> Step<CopyToEnd, ()> {
    |state: CopyToEnd, reply: Reply| copy_to_end_spec(state, reply)
}

/// The sender that copies a file of a known length, as a function to run.
pub open spec fn imp_sender() -> spec_fn(SendFileImp, Reply) -> Step<SendFileImp, ()> {
    |state: SendFileImp, reply: Reply| send_file_imp_spec(state, reply)
}

/// Copies have moved the stretch of the file from `from` up to the read
/// position, and nothing else, since `start`.
pub open spec fn copied_from(world: World, start: World, from: int) -> bool {
    &&& world.position >= from
    &&& transfers(start, world, from, world.position - from)
}

/// The stretch from `from` to the end of the file has been moved since
/// `start`, and the read position is where the copies left it: at the end
/// of the file, or at `from` where that is beyond the end.
pub open spec fn copied_to_end(world: World, start: World, from: int) -> bool {
    &&& copied_from(world, start, from)
    &&& world.position - from == to_end(start.file, from)
}

proof fn lemma_copy_moves_on(before: World, after: World, start: World, from: int, reply: Reply)
    requires
        0 <= from,
        copied_from(before, start, from),
        crate::model::copies(before, before.file.len() as int, reply, after),
    ensures
        copied_from(after, start, from),
        reply is Copied,
        reply matches Reply::Copied(Ok(_)) ==> copied_to_end(after, start, from),
{
    let moved = after.position - before.position;
    if moved > 0 {
        if before.position > from {
            assert(after.peer =~= start.peer + start.file.subrange(from, after.position as int));
        }
    }
}

/// What holds at every step of copying to the end of the file from
/// `offset` on.
pub open spec fn copying_the_rest(
    step: Step<CopyToEnd, ()>,
    world: World,
    start: World,
    offset: u64,
) -> bool {
    match step {
        Step::Continue(CopyToEnd::Seeking { offset: from }, request) => {
            &&& from == offset
            &&& request == Request::Seek { position: offset }
            &&& world.peer == start.peer
            &&& world.file == start.file
        },
        Step::Continue(CopyToEnd::Copying, request) => {
            &&& request == Request::Copy
            &&& copied_from(world, start, offset as int)
        },
        Step::Done(_) => copied_to_end(world, start, offset as int),
        Step::Failed(_) => world.file == start.file,
    }
}

proof fn lemma_copy_to_end_run(
    backend: Backend,
    step: Step<CopyToEnd, ()>,
    world: World,
    start: World,
    offset: u64,
    events: Seq<Event>,
)
    requires
        copying_the_rest(step, world, start, offset),
        faithful(backend, copy_sender(), step, world, events),
    ensures
        copying_the_rest(run(copy_sender(), step, events), outcome(world, events), start, offset),
    decreases events.len(),
{
    if events.len() > 0 {
        if let Step::Continue(state, request) = step {
            let first = events[0];
            let rest = events.drop_first();
            if state is Copying {
                lemma_copy_moves_on(world, first.world, start, offset as int, first.reply);
            }
            lemma_copy_to_end_run(
                backend,
                copy_to_end_spec(state, first.reply),
                first.world,
                start,
                offset,
                rest,
            );
            if rest.len() > 0 {
                assert(rest.last() == events.last());
            }
        }
    }
}

/// Whenever copying to the end of the file from `offset` on ends in
/// success, the peer has received the file's bytes from `offset` to its
/// end, in order and after all it had before, and nothing besides. The
/// read position is at the end of the file and the file is as it was. From
/// an offset beyond the end nothing is sent.
pub proof fn theorem_copy_to_end_sends_the_rest(
    backend: Backend,
    offset: u64,
    world: World,
    events: Seq<Event>,
)
    requires
        faithful(
            backend,
            copy_sender(),
            copy_to_end_spec(CopyToEnd::Seeking { offset }, Reply::Start),
            world,
            events,
        ),
    ensures
        outcome(world, events).file == world.file,
        run(
            copy_sender(),
            copy_to_end_spec(CopyToEnd::Seeking { offset }, Reply::Start),
            events,
        ) is Done ==> {
            let end = outcome(world, events);
            &&& transfers(world, end, offset as int, to_end(world.file, offset as int))
            &&& offset <= world.file.len() ==> end.peer == world.peer + world.file.subrange(
                offset as int,
                world.file.len() as int,
            ) && end.position == world.file.len()
            &&& offset > world.file.len() ==> end.peer == world.peer
        },
{
    let start = copy_to_end_spec(CopyToEnd::Seeking { offset }, Reply::Start);
    lemma_copy_to_end_run(backend, start, world, world, offset, events);
    if offset == world.file.len() {
        assert(world.peer =~= world.peer + world.file.subrange(offset as int, offset as int));
    }
}

/// What holds at every step of copying a file of a known length from the
/// read position `from` on.
pub open spec fn copying_the_file(
    step: Step<SendFileImp, ()>,
    world: World,
    start: World,
    from: int,
) -> bool {
    match step {
        Step::Continue(_, request) => {
            &&& request == Request::Copy
            &&& copied_from(world, start, from)
        },
        Step::Done(_) => copied_to_end(world, start, from),
        Step::Failed(_) => world.file == start.file,
    }
}

proof fn lemma_send_file_imp_run(
    backend: Backend,
    step: Step<SendFileImp, ()>,
    world: World,
    start: World,
    from: int,
    events: Seq<Event>,
)
    requires
        0 <= from,
        copying_the_file(step, world, start, from),
        faithful(backend, imp_sender(), step, world, events),
    ensures
        copying_the_file(run(imp_sender(), step, events), outcome(world, events), start, from),
    decreases events.len(),
{
    if events.len() > 0 {
        if let Step::Continue(state, request) = step {
            let first = events[0];
            let rest = events.drop_first();
            lemma_copy_moves_on(world, first.world, start, from, first.reply);
            lemma_send_file_imp_run(
                backend,
                send_file_imp_spec(state, first.reply),
                first.world,
                start,
                from,
                rest,
            );
            if rest.len() > 0 {
                assert(rest.last() == events.last());
            }
        }
    }
}

/// Whenever copying a file of a known length ends in success, the peer has
/// received all that the file holds from the read position on, in order
/// and after all it had before, and nothing besides: from the start of the
/// file, the whole file. This holds whatever length and count the state
/// carries. The read position is then at the end of the file, and the file
/// is as it was.
pub proof fn theorem_send_file_imp_sends_the_file(
    backend: Backend,
    state: SendFileImp,
    world: World,
    events: Seq<Event>,
)
    requires
        faithful(backend, imp_sender(), send_file_imp_spec(state, Reply::Start), world, events),
    ensures
        outcome(world, events).file == world.file,
        run(imp_sender(), send_file_imp_spec(state, Reply::Start), events) is Done ==> {
            let end = outcome(world, events);
            &&& transfers(
                world,
                end,
                world.position as int,
                to_end(world.file, world.position as int),
            )
            &&& world.position <= world.file.len() ==> end.position == world.file.len()
            &&& world.position == 0 ==> end.peer == world.peer + world.file
        },
{
    let start = send_file_imp_spec(state, Reply::Start);
    lemma_send_file_imp_run(backend, start, world, world, world.position as int, events);
    if world.position == 0 {
        assert(world.file.subrange(0, world.file.len() as int) =~= world.file);
        if world.file.len() == 0 {
            assert(world.peer =~= world.peer + world.file);
        }
    }
}

} // verus!
