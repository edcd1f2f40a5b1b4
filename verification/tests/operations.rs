use std::sync::atomic::{AtomicUsize, Ordering};
use std::sync::Arc;
use std::task::{Wake, Waker};

use monoio::uring::entry::{
    resultify, Cqe, FailureKind, Features, OsError, Sqe, SqLevel, SubmitError, CANCEL_USERDATA,
    EVENTFD_USERDATA, MIN_REVERSED_USERDATA, POLLER_USERDATA, TIMEOUT_USERDATA,
};
use monoio::uring::errno::Errnos;
use monoio::uring::inner::{
    CancelDo, CancelSeen, Direction, DropDo, LegacyRoute, OpDo, OpSeen, SubmitDo, SubmitSeen,
    TickStop, UringInner,
};
use monoio::uring::ops::{Completion, CompletionMeta};

struct Counter(AtomicUsize);

impl Wake for Counter {
    fn wake(self: Arc<Self>) {
        self.0.fetch_add(1, Ordering::SeqCst);
    }
}

fn counting_waker() -> (Arc<Counter>, Waker) {
    let counter = Arc::new(Counter(AtomicUsize::new(0)));
    (counter.clone(), Waker::from(counter))
}

const ALL: Features = Features { sync: true, poll_io: true, async_cancel: true, unstable: false };
const NONE: Features = Features { sync: false, poll_io: false, async_cancel: false, unstable: false };
const ROOM: SqLevel = SqLevel { len: 0, capacity: 8 };
const FULL: SqLevel = SqLevel { len: 8, capacity: 8 };

fn ring(features: Features) -> UringInner<&'static str> {
    UringInner::new(features, true, None)
}

fn submit(inner: &mut UringInner<&'static str>, is_fd: bool) -> usize {
    match inner.submit_with_data(is_fd, OpSeen::Level(ROOM)) {
        OpDo::Push(index) => index,
        other => panic!("unexpected {other:?}"),
    }
}

fn cqe(token: u64, result: i32, flags: u32) -> Cqe {
    Cqe { user_data: token, result, flags }
}

#[test]
fn result_numbers_split_into_success_and_error() {
    assert_eq!(resultify(&cqe(0, 0, 0)), Ok(0));
    assert_eq!(resultify(&cqe(0, 4096, 0)), Ok(4096));
    assert_eq!(resultify(&cqe(0, i32::MAX, 0)), Ok(i32::MAX as u32));
    assert_eq!(resultify(&cqe(0, -11, 0)), Err(OsError { code: Some(11) }));
    assert_eq!(resultify(&cqe(0, -i32::MAX, 0)), Err(OsError { code: Some(i32::MAX) }));
}

#[test]
fn tokens_are_the_reserved_numbers() {
    assert_eq!(CANCEL_USERDATA, u64::MAX);
    assert_eq!(TIMEOUT_USERDATA, u64::MAX - 1);
    assert_eq!(EVENTFD_USERDATA, u64::MAX - 2);
    assert_eq!(POLLER_USERDATA, u64::MAX - 3);
    assert_eq!(MIN_REVERSED_USERDATA, u64::MAX - 3);
    assert_eq!(Sqe::AsyncCancel(7).user_data(), u64::MAX);
    assert_eq!(Sqe::ReadEventfd.user_data(), u64::MAX - 2);
    assert_eq!(Sqe::PollPoller.user_data(), u64::MAX - 3);
    assert_eq!(Sqe::Operation(7).user_data(), 7);
}

#[test]
fn errnos_are_the_platform_s() {
    let e = Errnos::native();
    assert_eq!(e.again, libc::EAGAIN);
    assert_eq!(e.busy, libc::EBUSY);
    assert_eq!(e.time, libc::ETIME);
    assert!(e.is_retry(&OsError { code: Some(libc::EAGAIN) }));
    assert!(e.is_retry(&OsError { code: Some(libc::EBUSY) }));
    assert!(!e.is_retry(&OsError { code: Some(libc::EINVAL) }));
    assert!(!e.is_retry(&OsError { code: None }));
    assert!(e.is_expired(&OsError { code: Some(libc::ETIME) }));
    assert!(!e.is_expired(&OsError { code: Some(libc::EAGAIN) }));
}

#[test]
fn completed_operation_is_collected_once() {
    let mut inner = ring(ALL);
    let a = submit(&mut inner, false);
    let b = submit(&mut inner, true);
    assert_ne!(a, b);
    assert_eq!(inner.num_operations(), 2);

    let (woken, waker) = counting_waker();
    assert_eq!(inner.poll_op(a, waker), None);

    let ticked = inner.tick(&[cqe(b as u64, 5, 1), cqe(a as u64, -104, 0)], 0);
    assert_eq!(ticked.next, 2);
    assert_eq!(ticked.stop, TickStop::Drained);
    assert_eq!(ticked.todo.len(), 2);
    let mut todo = ticked.todo.into_iter();
    assert!(matches!(todo.next(), Some(Completion::Stored)));
    match todo.next() {
        Some(Completion::Wake(w)) => w.wake(),
        other => panic!("unexpected {other:?}"),
    }
    assert_eq!(woken.0.load(Ordering::SeqCst), 1);

    let (_, waker) = counting_waker();
    assert_eq!(
        inner.poll_op(a, waker.clone()),
        Some(CompletionMeta { result: Err(OsError { code: Some(104) }), flags: 0 })
    );
    assert_eq!(
        inner.poll_op(b, waker),
        Some(CompletionMeta { result: Ok(5), flags: 1 })
    );
    assert_eq!(inner.num_operations(), 0);
}

#[test]
fn indices_are_used_again() {
    let mut inner = ring(ALL);
    let a = submit(&mut inner, false);
    let _b = submit(&mut inner, false);
    inner.tick(&[cqe(a as u64, 0, 0)], 0);
    let (_, waker) = counting_waker();
    assert!(inner.poll_op(a, waker).is_some());
    assert_eq!(submit(&mut inner, false), a);
    assert_eq!(inner.num_operations(), 2);
}

#[test]
fn own_entries_only_clear_their_marks() {
    let mut inner = ring(ALL);
    assert_eq!(inner.install_eventfd(), Sqe::ReadEventfd);
    assert_eq!(inner.install_poller(), Sqe::PollPoller);
    assert!(inner.eventfd_installed() && inner.poller_installed());

    let batch = [
        cqe(TIMEOUT_USERDATA, -62, 0),
        cqe(CANCEL_USERDATA, 0, 0),
        cqe(EVENTFD_USERDATA, 8, 0),
        cqe(POLLER_USERDATA, 1, 0),
        cqe(CANCEL_USERDATA, 0, 0),
    ];
    let ticked = inner.tick(&batch, 0);
    assert_eq!((ticked.next, ticked.stop), (4, TickStop::Poller));
    assert!(ticked.todo.is_empty());
    assert!(!inner.eventfd_installed() && !inner.poller_installed());
    let ticked = inner.tick(&batch, ticked.next);
    assert_eq!((ticked.next, ticked.stop), (5, TickStop::Drained));

    // Without these parts their tokens mean nothing.
    let mut inner = ring(NONE);
    inner.install_eventfd();
    inner.install_poller();
    let ticked = inner.tick(&batch, 0);
    assert_eq!((ticked.next, ticked.stop), (5, TickStop::Drained));
    assert!(inner.eventfd_installed() && inner.poller_installed());
}

#[test]
fn reaping_in_pieces_is_reaping_at_once() {
    let mut once = ring(NONE);
    let mut twice = ring(NONE);
    let mut batch = vec![];
    for i in 0..4 {
        let index = submit(&mut once, false);
        assert_eq!(submit(&mut twice, false), index);
        batch.push(cqe(index as u64, i, 0));
    }
    assert_eq!(once.tick(&batch, 0).todo.len(), 4);
    assert_eq!(twice.tick(&batch[..2], 0).todo.len(), 2);
    assert_eq!(twice.tick(&batch, 2).todo.len(), 2);
    for c in &batch {
        let (_, waker) = counting_waker();
        let index = c.user_data as usize;
        assert_eq!(once.poll_op(index, waker.clone()), twice.poll_op(index, waker));
    }
}

#[test]
fn stray_completions_stop_the_walk() {
    let mut inner = ring(ALL);
    let a = submit(&mut inner, false);
    // No such operation.
    let ticked = inner.tick(&[cqe(a as u64 + 1, 0, 0)], 0);
    assert_eq!((ticked.next, ticked.stop), (0, TickStop::Stray));
    // Completed twice.
    let ticked = inner.tick(&[cqe(a as u64, 0, 0), cqe(a as u64, 0, 0)], 0);
    assert_eq!((ticked.next, ticked.stop), (1, TickStop::Stray));
    // A result that cannot be negated.
    let b = submit(&mut inner, false);
    let ticked = inner.tick(&[cqe(b as u64, i32::MIN, 0)], 0);
    assert_eq!((ticked.next, ticked.stop), (0, TickStop::Stray));
}

#[test]
fn dropped_operation_keeps_its_data_until_it_completes() {
    let mut inner = ring(ALL);
    let a = submit(&mut inner, true);
    let mut data = Some("buffer");
    assert_eq!(inner.drop_op(a, &mut data, false), DropDo::Cancel(a));
    assert_eq!(data, None);
    assert_eq!(inner.num_operations(), 1);
    assert!(!inner.is_owned(a));

    let mut ticked = inner.tick(&[cqe(a as u64, 9, 2)], 0);
    match ticked.todo.pop() {
        Some(Completion::Discard { is_fd, meta, data }) => {
            assert!(is_fd);
            assert_eq!(meta, CompletionMeta { result: Ok(9), flags: 2 });
            assert_eq!(data, Some("buffer"));
        }
        other => panic!("unexpected {other:?}"),
    }
    assert_eq!(inner.num_operations(), 0);
}

#[test]
fn dropping_cancels_only_where_it_should() {
    // Told not to.
    let mut inner = ring(ALL);
    let a = submit(&mut inner, false);
    assert_eq!(inner.drop_op(a, &mut None, true), DropDo::Nothing);
    // The driver does not cancel.
    let mut inner = ring(NONE);
    let a = submit(&mut inner, false);
    assert_eq!(inner.drop_op(a, &mut None, false), DropDo::Nothing);
    assert_eq!(inner.num_operations(), 1);
    // Already collected.
    assert_eq!(inner.drop_op(usize::MAX, &mut None, false), DropDo::Nothing);
    assert_eq!(inner.drop_op(a + 1, &mut Some("kept"), false), DropDo::Nothing);
    // Finished, not collected.
    let mut inner = ring(ALL);
    let a = submit(&mut inner, true);
    inner.tick(&[cqe(a as u64, 3, 0)], 0);
    let mut data = Some("buffer");
    assert_eq!(
        inner.drop_op(a, &mut data, false),
        DropDo::Release { is_fd: true, meta: CompletionMeta { result: Ok(3), flags: 0 } }
    );
    assert_eq!(data, Some("buffer"));
    assert_eq!(inner.num_operations(), 0);
}

#[test]
fn full_queue_is_flushed_before_an_operation_enters() {
    let mut inner = ring(ALL);
    assert_eq!(inner.submit_with_data(false, OpSeen::Level(FULL)), OpDo::Flush);
    assert_eq!(inner.num_operations(), 0);
    let e = OsError { code: Some(libc::EINVAL) };
    assert_eq!(inner.submit_with_data(false, OpSeen::Flushed(Err(e))), OpDo::Fail(e));
    assert_eq!(inner.num_operations(), 0);
    assert!(matches!(
        inner.submit_with_data(false, OpSeen::Flushed(Ok(()))),
        OpDo::Push(_)
    ));
    assert_eq!(inner.num_operations(), 1);
}

fn refused(code: i32, kind: FailureKind) -> SubmitSeen {
    SubmitSeen::Submitted(Err(SubmitError { error: OsError { code: Some(code) }, kind }))
}

#[test]
fn submission_retries_while_the_ring_is_busy() {
    let inner = ring(ALL);
    let inval = OsError { code: Some(libc::EINVAL) };
    assert_eq!(inner.submit(SubmitSeen::Start), SubmitDo::Submit);
    assert_eq!(inner.submit(refused(libc::EAGAIN, FailureKind::Unrelated)), SubmitDo::Tick);
    assert_eq!(inner.submit(SubmitSeen::Ticked(Ok(0))), SubmitDo::Submit);
    assert_eq!(inner.submit(refused(libc::EBUSY, FailureKind::ResourceBusy)), SubmitDo::Tick);
    assert_eq!(inner.submit(SubmitSeen::Ticked(Err(inval))), SubmitDo::Return(Err(inval)));
    // The kind does not count.
    assert_eq!(
        inner.submit(refused(libc::EINVAL, FailureKind::Other)),
        SubmitDo::Return(Err(inval))
    );
    assert_eq!(inner.submit(SubmitSeen::Submitted(Ok(3))), SubmitDo::Return(Ok(())));
}

#[test]
fn submission_may_retry_by_the_kind_of_its_error() {
    let inner = ring(Features { unstable: true, ..ALL });
    let again = OsError { code: Some(libc::EAGAIN) };
    assert_eq!(inner.submit(refused(libc::EINVAL, FailureKind::Other)), SubmitDo::Tick);
    assert_eq!(inner.submit(refused(libc::EBUSY, FailureKind::ResourceBusy)), SubmitDo::Tick);
    // The number does not count.
    assert_eq!(
        inner.submit(refused(libc::EAGAIN, FailureKind::Unrelated)),
        SubmitDo::Return(Err(again))
    );
    assert_eq!(inner.submit(SubmitSeen::Submitted(Ok(0))), SubmitDo::Return(Ok(())));
}

#[test]
fn cancellation_is_tried_twice() {
    type Inner = UringInner<()>;
    let push = CancelDo::Push(Sqe::AsyncCancel(6));
    assert_eq!(Inner::cancel_op(6, CancelSeen::Start), push);
    assert_eq!(Inner::cancel_op(6, CancelSeen::FirstPush(true)), CancelDo::Done);
    assert_eq!(Inner::cancel_op(6, CancelSeen::FirstPush(false)), CancelDo::Flush);
    assert_eq!(Inner::cancel_op(6, CancelSeen::Flushed), push);
    assert_eq!(Inner::cancel_op(6, CancelSeen::SecondPush), CancelDo::Done);
}

#[test]
fn operations_without_readiness_are_called_right_away() {
    type Inner = UringInner<()>;
    assert_eq!(Inner::poll_legacy_op(None), LegacyRoute::CallNow);
    assert_eq!(
        Inner::poll_legacy_op(Some((Direction::Write, 4))),
        LegacyRoute::WhenReady(Direction::Write, 4)
    );
    assert_eq!(
        Inner::legacy_ready(Ok(12)),
        CompletionMeta { result: Ok(12), flags: 0 }
    );
}
