//! The senders, step by step, against replies written out by hand.

use snedfile::fallback::{CopyToEnd, SendFileImp};
use snedfile::{check_error, freebsd, linux, macos};
use snedfile::{Backend, ErrorKind, Reply, Request, SendError, SendExact, SendFile, Step};

const MAX: u64 = i64::MAX as u64;

fn failed<S, T>(kind: ErrorKind) -> Step<S, T> {
    Step::Failed(SendError::Os(kind))
}

fn rejected<S, T>() -> Step<S, T> {
    Step::Failed(SendError::OffsetTooLarge)
}

/// Hands the replies in one after another and returns where the sender stands.
fn replay<S, T>(sender: fn(S, Reply) -> Step<S, T>, state: S, replies: &[Reply]) -> Step<S, T> {
    let mut step = sender(state, Reply::Start);
    for reply in replies {
        step = match step {
            Step::Continue(state, _) => sender(state, *reply),
            _ => panic!("a reply after the end"),
        };
    }
    step
}

#[test]
fn transient_kinds() {
    assert!(check_error(ErrorKind::WouldBlock));
    assert!(check_error(ErrorKind::Interrupted));
    assert!(!check_error(ErrorKind::InvalidData));
    assert!(!check_error(ErrorKind::Other));
}

#[test]
fn error_kinds() {
    assert_eq!(SendError::Os(ErrorKind::Other).kind(), ErrorKind::Other);
    assert_eq!(SendError::Os(ErrorKind::WouldBlock).kind(), ErrorKind::WouldBlock);
    assert_eq!(SendError::Os(ErrorKind::Interrupted).kind(), ErrorKind::Interrupted);
    assert_eq!(SendError::Os(ErrorKind::InvalidData).kind(), ErrorKind::InvalidData);
    assert_eq!(SendError::OffsetTooLarge.kind(), ErrorKind::InvalidData);
}

#[test]
fn limits() {
    assert_eq!(linux::MAX_LENGTH, 9_223_372_036_854_775_807);
    assert_eq!(linux::MAX_CHUNK, 2_147_479_552);
    assert_eq!(freebsd::MAX_OFFSET, 9_223_372_036_854_775_807);
    assert_eq!(freebsd::MAX_CHUNK, u64::MAX);
    assert_eq!(macos::MAX_OFFSET, 9_223_372_036_854_775_807);
    assert_eq!(macos::MAX_CHUNK, 9_223_372_036_854_775_807);
}

#[test]
fn linux_try_sendfile_reads_the_outcome() {
    assert_eq!(linux::try_sendfile(13, 0, 13, ErrorKind::Other), Ok(13));
    assert_eq!(linux::try_sendfile(0, 7, 7, ErrorKind::Other), Ok(0));
    assert_eq!(
        linux::try_sendfile(-1, 10, 14, ErrorKind::Interrupted),
        Err((ErrorKind::Interrupted, 4))
    );
    assert_eq!(
        linux::try_sendfile(-1, 10, 10, ErrorKind::WouldBlock),
        Err((ErrorKind::WouldBlock, 0))
    );
    assert_eq!(linux::try_sendfile(-1, 10, 4, ErrorKind::Other), Err((ErrorKind::Other, 0)));
    assert_eq!(linux::try_sendfile(-3, 0, 2, ErrorKind::Other), Err((ErrorKind::Other, 2)));
    assert_eq!(
        linux::try_sendfile(-1, i64::MIN, i64::MAX, ErrorKind::Other),
        Err((ErrorKind::Other, u64::MAX))
    );
}

#[test]
fn bsd_try_sendfile_reads_the_outcome() {
    assert_eq!(freebsd::try_sendfile(0, 13, ErrorKind::Other), Ok(()));
    assert_eq!(freebsd::try_sendfile(-1, 5, ErrorKind::WouldBlock), Err((ErrorKind::WouldBlock, 5)));
    assert_eq!(freebsd::try_sendfile(-1, -5, ErrorKind::Other), Err((ErrorKind::Other, 0)));
    assert_eq!(freebsd::try_sendfile(-2, 5, ErrorKind::Other), Ok(()));
    assert_eq!(macos::try_sendfile(0, 13, ErrorKind::Other), Ok(()));
    assert_eq!(macos::try_sendfile(-1, 5, ErrorKind::Interrupted), Err((ErrorKind::Interrupted, 5)));
    assert_eq!(macos::try_sendfile(-1, -1, ErrorKind::Other), Err((ErrorKind::Other, 0)));
}

#[test]
fn linux_send_file_resumes_where_the_attempt_stopped() {
    let state = linux::SendFile::Probing;
    assert_eq!(linux::send_file(state, Reply::Start), Step::Continue(state, Request::Length));

    let state = linux::SendFile::Transmitting { length: 13, offset: 0 };
    assert_eq!(
        linux::send_file(linux::SendFile::Probing, Reply::Length(Ok(13))),
        Step::Continue(state, Request::Sendfile { offset: 0, length: 13 })
    );
    assert_eq!(
        linux::send_file(state, Reply::Sent(Ok(5))),
        Step::Continue(
            linux::SendFile::Transmitting { length: 13, offset: 5 },
            Request::Sendfile { offset: 5, length: 8 }
        )
    );
    assert_eq!(
        linux::send_file(
            linux::SendFile::Transmitting { length: 13, offset: 5 },
            Reply::Sent(Ok(8))
        ),
        Step::Done(())
    );
    assert_eq!(
        linux::send_file(
            linux::SendFile::Transmitting { length: 13, offset: 5 },
            Reply::Sent(Ok(0))
        ),
        Step::Continue(
            linux::SendFile::Transmitting { length: 13, offset: 5 },
            Request::Sendfile { offset: 5, length: 8 }
        )
    );
}

#[test]
fn transient_error_then_success() {
    for kind in [ErrorKind::WouldBlock, ErrorKind::Interrupted] {
        let linux = [
            Reply::Length(Ok(13)),
            Reply::Sent(Err((kind, 5))),
            Reply::Sent(Ok(8)),
        ];
        let state = SendFile::new(Backend::Linux);
        assert_eq!(
            replay(snedfile::send_file, state, &linux[..2]),
            Step::Continue(
                SendFile::Linux(linux::SendFile::Transmitting { length: 13, offset: 5 }),
                Request::Sendfile { offset: 5, length: 8 }
            )
        );
        assert_eq!(replay(snedfile::send_file, state, &linux), Step::Done(()));

        let bsd = [Reply::SentAll(Err((kind, 5))), Reply::SentAll(Ok(()))];
        let state = SendFile::new(Backend::FreeBsd);
        assert_eq!(
            replay(snedfile::send_file, state, &bsd[..1]),
            Step::Continue(
                SendFile::FreeBsd(freebsd::SendFile::Transmitting { offset: 5 }),
                Request::Sendfile { offset: 5, length: 0 }
            )
        );
        assert_eq!(replay(snedfile::send_file, state, &bsd), Step::Done(()));

        let state = SendFile::new(Backend::MacOs);
        assert_eq!(
            replay(snedfile::send_file, state, &bsd[..1]),
            Step::Continue(
                SendFile::MacOs(macos::SendFile::Transmitting { offset: 5 }),
                Request::Sendfile { offset: 5, length: 0 }
            )
        );
        assert_eq!(replay(snedfile::send_file, state, &bsd), Step::Done(()));

        let copying = [Reply::Length(Ok(13)), Reply::Copied(Err(kind)), Reply::Copied(Ok(13))];
        let state = SendFile::new(Backend::Fallback);
        assert_eq!(
            replay(snedfile::send_file, state, &copying[..2]),
            Step::Continue(
                SendFile::Fallback(snedfile::fallback::SendFile::Copying(SendFileImp {
                    length: 13,
                    sent: 0
                })),
                Request::Copy
            )
        );
        assert_eq!(replay(snedfile::send_file, state, &copying), Step::Done(()));
    }
}

#[test]
fn transient_error_without_progress_is_tried_again() {
    let state = linux::SendFile::Transmitting { length: 13, offset: 4 };
    assert_eq!(
        linux::send_file(state, Reply::Sent(Err((ErrorKind::WouldBlock, 0)))),
        Step::Continue(state, Request::Sendfile { offset: 4, length: 9 })
    );
    let state = freebsd::SendFile::Transmitting { offset: 4 };
    assert_eq!(
        freebsd::send_file(state, Reply::SentAll(Err((ErrorKind::Interrupted, 0)))),
        Step::Continue(state, Request::Sendfile { offset: 4, length: 0 })
    );
    let state = macos::SendFile::Transmitting { offset: 4 };
    assert_eq!(
        macos::send_file(state, Reply::SentAll(Err((ErrorKind::WouldBlock, 0)))),
        Step::Continue(state, Request::Sendfile { offset: 4, length: 0 })
    );
}

#[test]
fn macos_interruption_without_progress_is_fatal() {
    let state = macos::SendFile::Transmitting { offset: 4 };
    assert_eq!(
        macos::send_file(state, Reply::SentAll(Err((ErrorKind::Interrupted, 0)))),
        Step::Failed(SendError::Os(ErrorKind::Interrupted))
    );
    assert_eq!(
        macos::send_file(state, Reply::SentAll(Err((ErrorKind::Interrupted, 1)))),
        Step::Continue(
            macos::SendFile::Transmitting { offset: 5 },
            Request::Sendfile { offset: 5, length: 0 }
        )
    );
}

#[test]
fn fatal_errors_end_the_operation() {
    assert_eq!(linux::send_file(linux::SendFile::Probing, Reply::Length(Err(ErrorKind::Other))), failed(ErrorKind::Other));
    assert_eq!(
        linux::send_file(
            linux::SendFile::Transmitting { length: 13, offset: 4 },
            Reply::Sent(Err((ErrorKind::Other, 3)))
        ),
        failed(ErrorKind::Other)
    );
    assert_eq!(
        freebsd::send_file(
            freebsd::SendFile::Transmitting { offset: 4 },
            Reply::SentAll(Err((ErrorKind::InvalidData, 3)))
        ),
        failed(ErrorKind::InvalidData)
    );
    assert_eq!(
        macos::send_file(
            macos::SendFile::Transmitting { offset: 4 },
            Reply::SentAll(Err((ErrorKind::InvalidData, 3)))
        ),
        failed(ErrorKind::InvalidData)
    );
    assert_eq!(
        snedfile::fallback::send_file(
            snedfile::fallback::SendFile::Probing,
            Reply::Length(Err(ErrorKind::Other))
        ),
        failed(ErrorKind::Other)
    );
    assert_eq!(
        snedfile::fallback::send_file_imp(
            SendFileImp { length: 13, sent: 0 },
            Reply::Copied(Err(ErrorKind::Other))
        ),
        Step::Failed(SendError::Os(ErrorKind::Other))
    );
    assert_eq!(
        snedfile::fallback::copy_to_end(CopyToEnd::Copying, Reply::Copied(Err(ErrorKind::Other))),
        Step::Failed(SendError::Os(ErrorKind::Other))
    );
    assert_eq!(
        snedfile::fallback::copy_to_end(
            CopyToEnd::Seeking { offset: 3 },
            Reply::Sought(Err(ErrorKind::WouldBlock))
        ),
        Step::Failed(SendError::Os(ErrorKind::WouldBlock))
    );
}

#[test]
fn overflow_hands_over_to_copying() {
    for kind in [ErrorKind::WouldBlock, ErrorKind::Interrupted] {
        let position = MAX + 10;
        assert_eq!(
            freebsd::send_file(
                freebsd::SendFile::Transmitting { offset: MAX - 10 },
                Reply::SentAll(Err((kind, 20)))
            ),
            Step::Continue(
                freebsd::SendFile::Fallback(CopyToEnd::Seeking { offset: position }),
                Request::Seek { position }
            )
        );
        assert_eq!(
            macos::send_file(
                macos::SendFile::Transmitting { offset: MAX - 10 },
                Reply::SentAll(Err((kind, 20)))
            ),
            Step::Continue(
                macos::SendFile::Fallback(CopyToEnd::Seeking { offset: position }),
                Request::Seek { position }
            )
        );
        assert_eq!(
            freebsd::send_file(
                freebsd::SendFile::Transmitting { offset: MAX - 10 },
                Reply::SentAll(Err((kind, 10)))
            ),
            Step::Continue(
                freebsd::SendFile::Transmitting { offset: MAX },
                Request::Sendfile { offset: i64::MAX, length: 0 }
            )
        );
    }
    assert_eq!(
        freebsd::send_file(
            freebsd::SendFile::Transmitting { offset: MAX },
            Reply::SentAll(Err((ErrorKind::WouldBlock, u64::MAX)))
        ),
        Step::Continue(
            freebsd::SendFile::Fallback(CopyToEnd::Seeking { offset: u64::MAX }),
            Request::Seek { position: u64::MAX }
        )
    );
}

#[test]
fn overflow_is_finished_by_copying() {
    let replies = [
        Reply::SentAll(Err((ErrorKind::WouldBlock, MAX))),
        Reply::SentAll(Err((ErrorKind::WouldBlock, 20))),
        Reply::Sought(Ok(())),
        Reply::Copied(Ok(100)),
        Reply::Copied(Ok(0)),
    ];
    for backend in [Backend::FreeBsd, Backend::MacOs] {
        let state = SendFile::new(backend);
        for count in 2..5 {
            match replay(snedfile::send_file, state, &replies[..count]) {
                Step::Continue(_, Request::Seek { position }) => assert_eq!(position, MAX + 20),
                Step::Continue(_, request) => assert_eq!(request, Request::Copy),
                step => panic!("{:?}", step),
            }
        }
        assert_eq!(replay(snedfile::send_file, state, &replies), Step::Done(()));
    }
}

#[test]
fn linux_sends_the_rest_of_a_huge_file_by_copying() {
    let length = MAX + 100;
    let state = linux::SendFile::Transmitting { length, offset: 0 };
    assert_eq!(
        linux::send_file(linux::SendFile::Probing, Reply::Length(Ok(length))),
        Step::Continue(state, Request::Sendfile { offset: 0, length: MAX })
    );
    let state = linux::SendFile::Transmitting { length, offset: MAX - 1 };
    assert_eq!(
        linux::send_file(
            linux::SendFile::Transmitting { length, offset: 0 },
            Reply::Sent(Ok(MAX - 1))
        ),
        Step::Continue(state, Request::Sendfile { offset: i64::MAX - 1, length: 1 })
    );
    let copying = linux::SendFile::Fallback(CopyToEnd::Seeking { offset: MAX });
    assert_eq!(
        linux::send_file(state, Reply::Sent(Ok(1))),
        Step::Continue(copying, Request::Seek { position: MAX })
    );
    assert_eq!(
        linux::send_file(state, Reply::Sent(Err((ErrorKind::Interrupted, 1)))),
        Step::Continue(copying, Request::Seek { position: MAX })
    );
    let replies = [
        Reply::Length(Ok(length)),
        Reply::Sent(Ok(MAX)),
        Reply::Sought(Ok(())),
        Reply::Copied(Err(ErrorKind::WouldBlock)),
        Reply::Copied(Ok(100)),
        Reply::Copied(Ok(0)),
    ];
    assert_eq!(
        replay(linux::send_file, linux::SendFile::Probing, &replies[..5]),
        Step::Continue(linux::SendFile::Fallback(CopyToEnd::Copying), Request::Copy)
    );
    assert_eq!(replay(linux::send_file, linux::SendFile::Probing, &replies), Step::Done(()));
    assert_eq!(
        replay(linux::send_file, linux::SendFile::Probing, &[Reply::Length(Ok(MAX)), Reply::Sent(Ok(MAX))]),
        Step::Done(())
    );
}

#[test]
fn copying_never_goes_back_to_native_attempts() {
    let replies = [
        Reply::Start,
        Reply::Length(Ok(5)),
        Reply::Sent(Ok(5)),
        Reply::Sent(Err((ErrorKind::WouldBlock, 5))),
        Reply::SentAll(Ok(())),
        Reply::SentAll(Err((ErrorKind::WouldBlock, 5))),
        Reply::Sought(Ok(())),
        Reply::Copied(Ok(5)),
        Reply::Copied(Err(ErrorKind::Interrupted)),
    ];
    let copies = [CopyToEnd::Seeking { offset: 7 }, CopyToEnd::Copying];
    for copy in copies {
        let states = [
            SendFile::Linux(linux::SendFile::Fallback(copy)),
            SendFile::FreeBsd(freebsd::SendFile::Fallback(copy)),
            SendFile::MacOs(macos::SendFile::Fallback(copy)),
        ];
        for state in states {
            for reply in replies {
                match snedfile::send_file(state, reply) {
                    Step::Continue(SendFile::Linux(linux::SendFile::Fallback(_)), request)
                    | Step::Continue(SendFile::FreeBsd(freebsd::SendFile::Fallback(_)), request)
                    | Step::Continue(SendFile::MacOs(macos::SendFile::Fallback(_)), request) => {
                        assert!(request == Request::Copy || request == Request::Seek { position: 7 })
                    }
                    step => panic!("{:?}", step),
                }
            }
        }
    }
}

#[test]
fn copy_to_end_stops_when_nothing_is_left() {
    let seeking = CopyToEnd::Seeking { offset: 3 };
    let copy_to_end = snedfile::fallback::copy_to_end;
    assert_eq!(copy_to_end(seeking, Reply::Start), Step::Continue(seeking, Request::Seek { position: 3 }));
    assert_eq!(copy_to_end(seeking, Reply::Copied(Ok(0))), Step::Continue(seeking, Request::Seek { position: 3 }));
    assert_eq!(copy_to_end(seeking, Reply::Sought(Ok(()))), Step::Continue(CopyToEnd::Copying, Request::Copy));
    let copying = Step::Continue(CopyToEnd::Copying, Request::Copy);
    assert_eq!(copy_to_end(CopyToEnd::Copying, Reply::Copied(Ok(5))), copying);
    assert_eq!(copy_to_end(CopyToEnd::Copying, Reply::Copied(Err(ErrorKind::WouldBlock))), copying);
    assert_eq!(copy_to_end(CopyToEnd::Copying, Reply::Copied(Err(ErrorKind::Interrupted))), copying);
    assert_eq!(copy_to_end(CopyToEnd::Copying, Reply::Sought(Ok(()))), copying);
    assert_eq!(copy_to_end(CopyToEnd::Copying, Reply::Copied(Ok(0))), Step::Done(()));
}

#[test]
fn send_file_imp_counts_up_to_the_length() {
    let send_file_imp = snedfile::fallback::send_file_imp;
    let state = SendFileImp { length: 8, sent: 0 };
    assert_eq!(send_file_imp(state, Reply::Start), Step::Continue(state, Request::Copy));
    assert_eq!(send_file_imp(state, Reply::Copied(Ok(8))), Step::Done(()));
    assert_eq!(send_file_imp(state, Reply::Copied(Ok(9))), Step::Done(()));
    assert_eq!(
        send_file_imp(state, Reply::Copied(Ok(3))),
        Step::Continue(SendFileImp { length: 8, sent: 3 }, Request::Copy)
    );
    assert_eq!(send_file_imp(SendFileImp { length: 8, sent: 3 }, Reply::Copied(Ok(5))), Step::Done(()));
    assert_eq!(
        send_file_imp(SendFileImp { length: 8, sent: 3 }, Reply::Copied(Ok(4))),
        Step::Continue(SendFileImp { length: 8, sent: 7 }, Request::Copy)
    );
    assert_eq!(send_file_imp(SendFileImp { length: 8, sent: 3 }, Reply::Copied(Ok(0))), Step::Done(()));
    assert_eq!(
        send_file_imp(SendFileImp { length: 8, sent: 3 }, Reply::Copied(Err(ErrorKind::WouldBlock))),
        Step::Continue(SendFileImp { length: 8, sent: 3 }, Request::Copy)
    );
    assert_eq!(
        send_file_imp(SendFileImp { length: u64::MAX, sent: u64::MAX - 1 }, Reply::Copied(Ok(u64::MAX))),
        Step::Done(())
    );
    assert_eq!(send_file_imp(SendFileImp { length: 0, sent: 0 }, Reply::Start), Step::Continue(SendFileImp { length: 0, sent: 0 }, Request::Copy));
}

#[test]
fn send_exact_cuts_the_length_to_the_chunk() {
    let state = linux::SendExact { length: u64::MAX, offset: 6 };
    assert_eq!(
        linux::send_exact(state, Reply::Start),
        Step::Continue(state, Request::Sendfile { offset: 6, length: 0x7fff_f000 })
    );
    let state = linux::SendExact { length: 0x7fff_f001, offset: MAX };
    assert_eq!(
        linux::send_exact(state, Reply::Start),
        Step::Continue(state, Request::Sendfile { offset: i64::MAX, length: 0x7fff_f000 })
    );
    let state = linux::SendExact { length: 5, offset: 6 };
    assert_eq!(
        linux::send_exact(state, Reply::Start),
        Step::Continue(state, Request::Sendfile { offset: 6, length: 5 })
    );
    assert_eq!(linux::send_exact(state, Reply::Sent(Ok(3))), Step::Done(3));

    let state = freebsd::SendExact { length: u64::MAX, offset: 6 };
    assert_eq!(
        freebsd::send_exact(state, Reply::Start),
        Step::Continue(state, Request::Sendfile { offset: 6, length: u64::MAX })
    );
    assert_eq!(freebsd::send_exact(state, Reply::SentAll(Ok(()))), Step::Done(u64::MAX));

    let state = macos::SendExact { length: u64::MAX, offset: 6 };
    assert_eq!(
        macos::send_exact(state, Reply::Start),
        Step::Continue(state, Request::Sendfile { offset: 6, length: MAX })
    );
    assert_eq!(macos::send_exact(state, Reply::SentAll(Ok(()))), Step::Done(MAX));
    let state = macos::SendExact { length: 5, offset: 6 };
    assert_eq!(macos::send_exact(state, Reply::SentAll(Ok(()))), Step::Done(5));
}

#[test]
fn send_exact_rejects_an_offset_out_of_range() {
    for reply in [Reply::Start, Reply::Sent(Ok(5)), Reply::SentAll(Ok(()))] {
        assert_eq!(linux::send_exact(linux::SendExact { length: 5, offset: MAX + 1 }, reply), rejected());
        assert_eq!(freebsd::send_exact(freebsd::SendExact { length: 5, offset: MAX + 1 }, reply), rejected());
        assert_eq!(macos::send_exact(macos::SendExact { length: 5, offset: u64::MAX }, reply), rejected());
    }
    for backend in [Backend::Linux, Backend::FreeBsd, Backend::MacOs] {
        assert_eq!(
            snedfile::send_exact(SendExact::new(backend, 5, MAX + 1), Reply::Start),
            Step::Failed(SendError::OffsetTooLarge)
        );
        match snedfile::send_exact(SendExact::new(backend, 5, MAX), Reply::Start) {
            Step::Continue(_, request) => {
                assert_eq!(request, Request::Sendfile { offset: i64::MAX, length: 5 })
            }
            step => panic!("{:?}", step),
        }
    }
    let state = SendExact::new(Backend::Fallback, 5, MAX + 1);
    assert_eq!(
        snedfile::send_exact(state, Reply::Start),
        Step::Continue(state, Request::Seek { position: MAX + 1 })
    );
}

#[test]
fn send_exact_retries_nothing() {
    for kind in [ErrorKind::WouldBlock, ErrorKind::Interrupted, ErrorKind::InvalidData, ErrorKind::Other] {
        assert_eq!(
            linux::send_exact(linux::SendExact { length: 5, offset: 6 }, Reply::Sent(Err((kind, 2)))),
            failed(kind)
        );
        assert_eq!(
            freebsd::send_exact(freebsd::SendExact { length: 5, offset: 6 }, Reply::SentAll(Err((kind, 2)))),
            failed(kind)
        );
        assert_eq!(
            macos::send_exact(macos::SendExact { length: 5, offset: 6 }, Reply::SentAll(Err((kind, 2)))),
            failed(kind)
        );
        assert_eq!(
            snedfile::fallback::send_exact(
                snedfile::fallback::SendExact::Seeking { length: 5, offset: 6 },
                Reply::Sought(Err(kind))
            ),
            failed(kind)
        );
        assert_eq!(
            snedfile::fallback::send_exact(
                snedfile::fallback::SendExact::Copying { length: 5 },
                Reply::Copied(Err(kind))
            ),
            Step::Failed(SendError::Os(kind))
        );
    }
}

#[test]
fn fallback_send_exact_seeks_then_copies() {
    let send_exact = snedfile::fallback::send_exact;
    let seeking = snedfile::fallback::SendExact::Seeking { length: 8, offset: 1 };
    let copying = snedfile::fallback::SendExact::Copying { length: 8 };
    assert_eq!(send_exact(seeking, Reply::Start), Step::Continue(seeking, Request::Seek { position: 1 }));
    assert_eq!(
        send_exact(seeking, Reply::Sought(Ok(()))),
        Step::Continue(copying, Request::CopyUpTo { length: 8 })
    );
    assert_eq!(send_exact(copying, Reply::Start), Step::Continue(copying, Request::CopyUpTo { length: 8 }));
    assert_eq!(send_exact(copying, Reply::Copied(Ok(7))), Step::Done(7));
}

#[test]
fn a_reply_that_answers_nothing_repeats_the_request() {
    let state = SendFile::Linux(linux::SendFile::Transmitting { length: 13, offset: 4 });
    for reply in [Reply::Start, Reply::Length(Ok(3)), Reply::SentAll(Ok(())), Reply::Copied(Ok(9))] {
        assert_eq!(
            snedfile::send_file(state, reply),
            Step::Continue(state, Request::Sendfile { offset: 4, length: 9 })
        );
    }
    let state = SendFile::MacOs(macos::SendFile::Transmitting { offset: 4 });
    for reply in [Reply::Start, Reply::Length(Ok(3)), Reply::Sent(Ok(9)), Reply::Copied(Ok(9))] {
        assert_eq!(
            snedfile::send_file(state, reply),
            Step::Continue(state, Request::Sendfile { offset: 4, length: 0 })
        );
    }
}

#[test]
fn new_states() {
    assert_eq!(SendFile::new(Backend::Linux), SendFile::Linux(linux::SendFile::Probing));
    assert_eq!(
        SendFile::new(Backend::FreeBsd),
        SendFile::FreeBsd(freebsd::SendFile::Transmitting { offset: 0 })
    );
    assert_eq!(
        SendFile::new(Backend::MacOs),
        SendFile::MacOs(macos::SendFile::Transmitting { offset: 0 })
    );
    assert_eq!(
        SendFile::new(Backend::Fallback),
        SendFile::Fallback(snedfile::fallback::SendFile::Probing)
    );
    assert_eq!(
        SendExact::new(Backend::Linux, 5, 6),
        SendExact::Linux(linux::SendExact { length: 5, offset: 6 })
    );
    assert_eq!(
        SendExact::new(Backend::FreeBsd, 5, 6),
        SendExact::FreeBsd(freebsd::SendExact { length: 5, offset: 6 })
    );
    assert_eq!(
        SendExact::new(Backend::MacOs, 5, 6),
        SendExact::MacOs(macos::SendExact { length: 5, offset: 6 })
    );
    assert_eq!(
        SendExact::new(Backend::Fallback, 5, 6),
        SendExact::Fallback(snedfile::fallback::SendExact::Seeking { length: 5, offset: 6 })
    );
}

#[test]
fn send_exact_asks_nothing_for_an_empty_range() {
    for reply in [Reply::Start, Reply::SentAll(Ok(())), Reply::Copied(Ok(3))] {
        assert_eq!(
            freebsd::send_exact(freebsd::SendExact { length: 0, offset: 6 }, reply),
            Step::Done(0)
        );
        assert_eq!(
            macos::send_exact(macos::SendExact { length: 0, offset: MAX }, reply),
            Step::Done(0)
        );
    }
    for backend in [Backend::FreeBsd, Backend::MacOs] {
        assert_eq!(
            snedfile::send_exact(SendExact::new(backend, 0, 6), Reply::Start),
            Step::Done(0)
        );
        assert_eq!(
            snedfile::send_exact(SendExact::new(backend, 0, MAX + 1), Reply::Start),
            Step::Failed(SendError::OffsetTooLarge)
        );
        match snedfile::send_exact(SendExact::new(backend, 1, 6), Reply::Start) {
            Step::Continue(_, request) => {
                assert_eq!(request, Request::Sendfile { offset: 6, length: 1 })
            }
            step => panic!("{:?}", step),
        }
    }
    let state = linux::SendExact { length: 0, offset: 6 };
    assert_eq!(
        linux::send_exact(state, Reply::Start),
        Step::Continue(state, Request::Sendfile { offset: 6, length: 0 })
    );
    assert_eq!(linux::send_exact(state, Reply::Sent(Ok(0))), Step::Done(0));
}
