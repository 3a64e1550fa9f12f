//! What the sender of whole files does about transient errors and about
//! offsets that leave the native range.

use vstd::prelude::*;
use crate::delivery::{file_sender, send_file_start, theorem_send_file_delivers_the_file};
use crate::error::{is_transient, ErrorKind, SendError};
use crate::fallback::CopyToEnd;
use crate::model::{faithful, outcome, run, Event, World};
use crate::protocol::{answers, Reply, Request, Step};
use crate::{freebsd, linux, macos};
use crate::{send_exact_spec, send_file_spec, Backend, SendExact, SendFile};

verus! {

/// The replies of `events` are those of `replies`, one for one.
pub open spec fn answered(events: Seq<Event>, replies: Seq<Reply>) -> bool {
    &&& events.len() == replies.len()
    &&& forall|i: int| 0 <= i < events.len() ==> (#[trigger] events[i]).reply == replies[i]
}

/// The reply is an error from a native attempt or from a copy.
pub open spec fn reports_error(reply: Reply, kind: ErrorKind) -> bool {
    ||| reply matches Reply::Sent(Err((reported, _))) && reported == kind
    ||| reply matches Reply::SentAll(Err((reported, _))) && reported == kind
    ||| reply == Reply::Copied(Err(kind))
}

/// The case that the macOS sender does not retry: its attempt was
/// interrupted before it moved a single byte.
pub open spec fn stalls(state: SendFile, reply: Reply) -> bool {
    &&& state matches SendFile::MacOs(macos::SendFile::Transmitting { .. })
    &&& reply == Reply::SentAll(Err((ErrorKind::Interrupted, 0u64)))
}

/// A transient error of an attempt or of a copy never ends the sending of
/// a whole file, in any state, but for the one case that the macOS sender
/// singles out: the sender goes on, or is done where the error came with
/// the last bytes. And no other failure is ever made up:
/// where the operation fails, it fails with the error that the reply
/// reported.
pub proof fn lemma_send_file_retries_transient_errors(state: SendFile, reply: Reply)
    ensures
        forall|kind: ErrorKind|
            reports_error(reply, kind) && is_transient(kind) && !stalls(state, reply)
                ==> !(send_file_spec(state, reply) is Failed),
        stalls(state, reply) ==> send_file_spec(state, reply) == Step::<SendFile, ()>::Failed(
            SendError::Os(ErrorKind::Interrupted),
        ),
        send_file_spec(state, reply) matches Step::Failed(error) ==> {
            &&& error matches SendError::Os(kind)
            &&& reports_error(reply, kind) || reply == Reply::Length(Err(kind)) || reply
                == Reply::Sought(Err(kind))
        },
{
}

/// The replies of an execution in which the first attempt fails with a
/// transient error after `moved` bytes and the second one sends all the
/// rest of a file of `length` bytes. A copy that fails does not say what it
/// moved; the one after it then reports the whole length only if that was
/// nothing.
pub open spec fn retried_once(backend: Backend, length: u64, moved: u64, kind: ErrorKind) -> Seq<
    Reply,
> {
    match backend {
        Backend::Linux => seq![
            Reply::Length(Ok(length)),
            Reply::Sent(Err((kind, moved))),
            Reply::Sent(Ok((length - moved) as u64)),
        ],
        Backend::FreeBsd => seq![Reply::SentAll(Err((kind, moved))), Reply::SentAll(Ok(()))],
        Backend::MacOs => seq![Reply::SentAll(Err((kind, moved))), Reply::SentAll(Ok(()))],
        Backend::Fallback => seq![
            Reply::Length(Ok(length)),
            Reply::Copied(Err(kind)),
            Reply::Copied(Ok(length)),
        ],
    }
}

/// A transient error on the first attempt, followed by an attempt that
/// sends the rest, ends in success, and the second attempt is asked for at
/// the offset that the first one reached. If the execution is a faithful
/// one, the peer has then received the whole file.
///
/// The file is one that the native primitive can send to its end, the
/// first attempt left something to send, and with the macOS sender it was
/// not an interruption that moved nothing.
pub proof fn theorem_send_file_recovers_from_a_transient_error(
    backend: Backend,
    length: u64,
    moved: u64,
    kind: ErrorKind,
    world: World,
    events: Seq<Event>,
)
    requires
        is_transient(kind),
        moved < length <= linux::MAX_LENGTH,
        backend == Backend::MacOs ==> !(kind == ErrorKind::Interrupted && moved == 0),
        answered(events, retried_once(backend, length, moved, kind)),
    ensures
        run(file_sender(), send_file_start(backend), events) is Done,
        match run(file_sender(), send_file_start(backend), events.take(events.len() - 1)) {
            Step::Continue(_, Request::Sendfile { offset, .. }) => backend != Backend::Fallback
                && offset == moved,
            Step::Continue(_, request) => backend == Backend::Fallback && request
                == Request::Copy,
            _ => false,
        },
        world.valid() && (backend == Backend::Fallback ==> world.position == 0) && faithful(
            backend,
            file_sender(),
            send_file_start(backend),
            world,
            events,
        ) ==> outcome(world, events).peer == world.peer + world.file,
{
    let replies = retried_once(backend, length, moved, kind);
    let start = send_file_start(backend);
    let sender = file_sender();
    let before_last = events.take(events.len() - 1);
    match backend {
        Backend::Linux | Backend::Fallback => {
            assert(events[0].reply == replies[0]);
            assert(events[1].reply == replies[1]);
            assert(events[2].reply == replies[2]);
            let tail = events.drop_first();
            let last = tail.drop_first();
            assert(tail[0] == events[1]);
            assert(last[0] == events[2]);
            assert(last.drop_first().len() == 0);
            reveal_with_fuel(run, 4);
            assert(before_last[0] == events[0]);
            assert(before_last.drop_first()[0] == events[1]);
            assert(before_last.drop_first().drop_first().len() == 0);
        },
        Backend::FreeBsd | Backend::MacOs => {
            assert(events[0].reply == replies[0]);
            assert(events[1].reply == replies[1]);
            let tail = events.drop_first();
            assert(tail[0] == events[1]);
            assert(tail.drop_first().len() == 0);
            reveal_with_fuel(run, 3);
            assert(before_last[0] == events[0]);
            assert(before_last.drop_first().len() == 0);
        },
    }
    if world.valid() && (backend == Backend::Fallback ==> world.position == 0) && faithful(
        backend,
        sender,
        start,
        world,
        events,
    ) {
        theorem_send_file_delivers_the_file(backend, world, events);
    }
}

/// The sender has left the native primitive for good.
pub open spec fn handed_over(state: SendFile) -> bool {
    match state {
        SendFile::Linux(inner) => inner is Fallback,
        SendFile::FreeBsd(inner) => inner is Fallback,
        SendFile::MacOs(inner) => inner is Fallback,
        SendFile::Fallback(_) => true,
    }
}

/// The step asks for no native attempt, and leaves the sender handed over
/// if it goes on.
pub open spec fn stays_handed_over(step: Step<SendFile, ()>) -> bool {
    step matches Step::Continue(state, request) ==> handed_over(state) && !(request is Sendfile)
}

/// Where the offset would leave the native range, ordinary copying takes
/// over at exactly the position reached.
///
/// On FreeBSD and on Apple systems this is when a transient error reports
/// progress that carries the offset beyond the largest one the primitive
/// can address. On Linux it is when the native part of a file longer than
/// that is sent, by an attempt that succeeds or by one that fails with a
/// transient error. In each case the next request positions the file, and
/// the sender is handed over.
pub proof fn lemma_overflow_hands_over(length: u64, offset: u64, sent: u64, kind: ErrorKind)
    requires
        is_transient(kind),
        freebsd::MAX_OFFSET < offset + sent <= u64::MAX,
    ensures
        send_file_spec(
            SendFile::FreeBsd(freebsd::SendFile::Transmitting { offset }),
            Reply::SentAll(Err((kind, sent))),
        ) == Step::<SendFile, ()>::Continue(
            SendFile::FreeBsd(
                freebsd::SendFile::Fallback(CopyToEnd::Seeking { offset: (offset + sent) as u64 }),
            ),
            Request::Seek { position: (offset + sent) as u64 },
        ),
        !(kind == ErrorKind::Interrupted && sent == 0) ==> send_file_spec(
            SendFile::MacOs(macos::SendFile::Transmitting { offset }),
            Reply::SentAll(Err((kind, sent))),
        ) == Step::<SendFile, ()>::Continue(
            SendFile::MacOs(
                macos::SendFile::Fallback(CopyToEnd::Seeking { offset: (offset + sent) as u64 }),
            ),
            Request::Seek { position: (offset + sent) as u64 },
        ),
        length > linux::MAX_LENGTH ==> {
            let handed = Step::<SendFile, ()>::Continue(
                SendFile::Linux(
                    linux::SendFile::Fallback(CopyToEnd::Seeking { offset: linux::MAX_LENGTH }),
                ),
                Request::Seek { position: linux::MAX_LENGTH },
            );
            let state = SendFile::Linux(linux::SendFile::Transmitting { length, offset });
            &&& send_file_spec(state, Reply::Sent(Ok(sent))) == handed
            &&& send_file_spec(state, Reply::Sent(Err((kind, sent)))) == handed
        },
{
}

/// The replies of an execution in which the native primitive gets as far
/// as it can address and ordinary copying sends the `rest`. On FreeBSD and
/// on Apple systems the first attempt fails with a transient error after
/// `moved` bytes, more than an offset can hold; on Linux the length is
/// `length`, more than the primitive can address, and the first attempt
/// sends all that it can. Then the file is positioned, one copy moves the
/// rest and the next one finds nothing left.
pub open spec fn handed_over_once(
    backend: Backend,
    length: u64,
    moved: u64,
    kind: ErrorKind,
    rest: u64,
) -> Seq<Reply> {
    let copying = seq![Reply::Sought(Ok(())), Reply::Copied(Ok(rest)), Reply::Copied(Ok(0))];
    match backend {
        Backend::Linux => seq![Reply::Length(Ok(length)), Reply::Sent(Ok(linux::MAX_LENGTH))]
            + copying,
        _ => seq![Reply::SentAll(Err((kind, moved)))] + copying,
    }
}

/// The position at which copying takes over in [`handed_over_once`].
pub open spec fn handover_position(backend: Backend, moved: u64) -> u64 {
    if backend == Backend::Linux {
        linux::MAX_LENGTH
    } else {
        moved
    }
}

/// Progress beyond what the native primitive can address is finished by
/// ordinary copying: the file is positioned exactly where the primitive
/// left off, the copies run to the end of the file, and the operation ends
/// in success. If the execution is a faithful one, the peer has then
/// received the whole file.
pub proof fn theorem_send_file_finishes_by_copying(
    backend: Backend,
    length: u64,
    moved: u64,
    kind: ErrorKind,
    rest: u64,
    world: World,
    events: Seq<Event>,
)
    requires
        backend != Backend::Fallback,
        is_transient(kind),
        length > linux::MAX_LENGTH,
        moved > freebsd::MAX_OFFSET,
        rest > 0,
        answered(events, handed_over_once(backend, length, moved, kind, rest)),
    ensures
        run(file_sender(), send_file_start(backend), events) is Done,
        run(file_sender(), send_file_start(backend), events.take(events.len() - 3))
            matches Step::Continue(state, request) && handed_over(state) && request
            == (Request::Seek { position: handover_position(backend, moved) }),
        world.valid() && faithful(
            backend,
            file_sender(),
            send_file_start(backend),
            world,
            events,
        ) ==> outcome(world, events).peer == world.peer + world.file,
{
    let replies = handed_over_once(backend, length, moved, kind, rest);
    let start = send_file_start(backend);
    let native = events.take(events.len() - 3);
    if backend == Backend::Linux {
        assert(events[0].reply == replies[0]);
        assert(events[1].reply == replies[1]);
        assert(events[2].reply == replies[2]);
        assert(events[3].reply == replies[3]);
        assert(events[4].reply == replies[4]);
        let e1 = events.drop_first();
        let e2 = e1.drop_first();
        let e3 = e2.drop_first();
        let e4 = e3.drop_first();
        assert(e1[0] == events[1]);
        assert(e2[0] == events[2]);
        assert(e3[0] == events[3]);
        assert(e4[0] == events[4]);
        assert(e4.drop_first().len() == 0);
        reveal_with_fuel(run, 6);
        assert(native[0] == events[0]);
        assert(native.drop_first()[0] == events[1]);
        assert(native.drop_first().drop_first().len() == 0);
    } else {
        assert(events[0].reply == replies[0]);
        assert(events[1].reply == replies[1]);
        assert(events[2].reply == replies[2]);
        assert(events[3].reply == replies[3]);
        let e1 = events.drop_first();
        let e2 = e1.drop_first();
        let e3 = e2.drop_first();
        assert(e1[0] == events[1]);
        assert(e2[0] == events[2]);
        assert(e3[0] == events[3]);
        assert(e3.drop_first().len() == 0);
        reveal_with_fuel(run, 5);
        assert(native[0] == events[0]);
        assert(native.drop_first().len() == 0);
    }
    if world.valid() && faithful(backend, file_sender(), start, world, events) {
        theorem_send_file_delivers_the_file(backend, world, events);
    }
}

/// Once ordinary copying has taken over, it sends all the rest: whatever
/// the replies, the sender never goes back to its native state and never
/// asks for a native attempt again.
pub proof fn theorem_fallback_owns_the_rest(step: Step<SendFile, ()>, events: Seq<Event>)
    requires
        stays_handed_over(step),
    ensures
        stays_handed_over(run(file_sender(), step, events)),
    decreases events.len(),
{
    if events.len() > 0 {
        if let Step::Continue(state, _) = step {
            theorem_fallback_owns_the_rest(
                send_file_spec(state, events[0].reply),
                events.drop_first(),
            );
        }
    }
}

/// After the hand-over, a file that is positioned and then copied to its
/// end is sent: once a copy reports that nothing was left, the operation
/// ends in success, however many copies ran before it.
pub proof fn lemma_copying_completes(state: SendFile, position: u64, copied: u64)
    requires
        state == SendFile::Linux(linux::SendFile::Fallback(CopyToEnd::Seeking { offset: position }))
            || state == SendFile::FreeBsd(
            freebsd::SendFile::Fallback(CopyToEnd::Seeking { offset: position }),
        ) || state == SendFile::MacOs(
            macos::SendFile::Fallback(CopyToEnd::Seeking { offset: position }),
        ),
        copied > 0,
    ensures
        send_file_spec(state, Reply::Start) == Step::<SendFile, ()>::Continue(
            state,
            Request::Seek { position },
        ),
        match send_file_spec(state, Reply::Sought(Ok(()))) {
            Step::Continue(copying, request) => {
                &&& request == Request::Copy
                &&& send_file_spec(copying, Reply::Copied(Ok(copied))) == Step::<
                    SendFile,
                    (),
                >::Continue(copying, Request::Copy)
                &&& send_file_spec(copying, Reply::Copied(Ok(0))) is Done
            },
            _ => false,
        },
{
}

/// An empty file is sent without a single attempt or copy, where the
/// length is asked for first: on Linux and by ordinary copying. The
/// FreeBSD and Apple senders never learn the length; they begin with an
/// attempt.
pub proof fn lemma_empty_file_needs_no_transfer(backend: Backend)
    ensures
        backend == Backend::Linux || backend == Backend::Fallback ==> {
            &&& send_file_start(backend) == Step::<SendFile, ()>::Continue(
                SendFile::new_spec(backend),
                Request::Length,
            )
            &&& send_file_spec(SendFile::new_spec(backend), Reply::Length(Ok(0))) is Done
        },
        backend == Backend::FreeBsd || backend == Backend::MacOs ==> send_file_start(backend)
            == Step::<SendFile, ()>::Continue(
            SendFile::new_spec(backend),
            Request::Sendfile { offset: 0, length: 0 },
        ),
{
}

/// A sender that waits for the answer to a request is not moved by any
/// other reply: it stays in its state and asks again.
pub proof fn lemma_unanswered_request_is_repeated(
    file: SendFile,
    range: SendExact,
    request: Request,
    reply: Reply,
)
    requires
        !answers(request, reply),
    ensures
        send_file_spec(file, Reply::Start) == Step::<SendFile, ()>::Continue(file, request)
            ==> send_file_spec(file, reply) == Step::<SendFile, ()>::Continue(file, request),
        send_exact_spec(range, Reply::Start) == Step::<SendExact, u64>::Continue(range, request)
            ==> send_exact_spec(range, reply) == Step::<SendExact, u64>::Continue(range, request),
{
}

/// The file's read position is moved for ordinary copying only: a request
/// to position the file or to copy from its position comes from a sender
/// that is handed over, never from one that still uses the native
/// primitive.
pub proof fn lemma_position_moves_only_for_copying(state: SendFile, reply: Reply)
    ensures
        match send_file_spec(state, reply) {
            Step::Continue(next, request) => request is Seek || request is Copy || request
                is CopyUpTo ==> handed_over(next),
            _ => true,
        },
{
}

} // verus!
