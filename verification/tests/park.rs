use monoio::client_gate::{client_request_begin, ClientGate};
use monoio::reactor_park::{reactor_parked_nanos, ParkScope, ReactorPark};
use monoio::uring::driver::{IoUringDriver, DEFAULT_ENTRIES};
use monoio::uring::entry::{Features, OsError, Sqe, SqLevel, Timespec};
use monoio::uring::park::{flush_space, Park, ParkDo, ParkSeen, DEFAULT_POLL_REACTOR_SPIN_US};

const ACK: ParkSeen = ParkSeen::Ack;
const OK: ParkSeen = ParkSeen::Done(Ok(()));
const EMPTY: ParkSeen = ParkSeen::Level(SqLevel { len: 0, capacity: 4 });
const QUEUED: ParkSeen = ParkSeen::Level(SqLevel { len: 3, capacity: 4 });
const WAKER: ParkSeen = ParkSeen::Waker(true);
const NO_WAKER: ParkSeen = ParkSeen::Waker(false);
const SECOND: Timespec = Timespec { sec: 1, nsec: 0 };

fn reaped(n: usize) -> ParkSeen {
    ParkSeen::Reaped(Ok(n))
}

fn failed(code: i32) -> OsError {
    OsError { code: Some(code) }
}

struct Reactor {
    driver: IoUringDriver<()>,
    gate: ClientGate,
    park: Park,
}

impl Reactor {
    fn new(
        features: Features,
        ext_arg: bool,
        spin: Option<u64>,
        poll: bool,
        gated: bool,
        timeout: Option<Timespec>,
    ) -> Reactor {
        let gate = ClientGate::new();
        let (driver, _) = IoUringDriver::new_with_entries(features, ext_arg, spin, poll, gated, 0);
        let park = match timeout {
            Some(t) => driver.park_timeout(t, &gate),
            None => driver.park(&gate),
        };
        Reactor { driver, gate, park }
    }

    fn tell(&mut self, seen: ParkSeen) -> ParkDo {
        self.driver.advance(&mut self.park, &self.gate, seen)
    }

    /// Tells each observation and compares the action that follows.
    fn follow(&mut self, script: &[(ParkSeen, ParkDo)]) {
        for (i, (seen, action)) in script.iter().enumerate() {
            assert_eq!(self.tell(*seen), *action, "exchange {i}");
        }
    }
}

const SYNC: Features = Features { sync: true, poll_io: false, async_cancel: false, unstable: false };
const ALONE: Features = Features { sync: false, poll_io: false, async_cancel: false, unstable: false };
const EVERYTHING: Features = Features { sync: true, poll_io: true, async_cancel: true, unstable: false };

const DONE: ParkDo = ParkDo::Return(Ok(()));

#[test]
fn constants_are_the_documented_defaults() {
    assert_eq!(DEFAULT_POLL_REACTOR_SPIN_US, 50);
    assert_eq!(DEFAULT_ENTRIES, 1024);
}

#[test]
fn room_is_made_only_when_it_is_missing() {
    let level = SqLevel { len: 6, capacity: 8 };
    assert!(!flush_space(&level, 0));
    assert!(!flush_space(&level, 2));
    assert!(flush_space(&level, 3));
    assert!(flush_space(&level, usize::MAX));
    assert!(flush_space(&SqLevel { len: usize::MAX, capacity: 8 }, 1));
}

#[test]
fn blocking_reactor_announces_sleep_and_waits() {
    let mut r = Reactor::new(SYNC, true, None, false, false, None);
    assert_eq!(r.park.action(), ParkDo::RecvWaker);
    r.follow(&[
        (NO_WAKER, ParkDo::SetAwake(false)),
        (ACK, ParkDo::RecvWaker),
        (NO_WAKER, ParkDo::ReadLevel),
        (EMPTY, ParkDo::Push(Sqe::ReadEventfd)),
        (ACK, ParkDo::OpenPark),
        (ACK, ParkDo::Wait),
        (OK, ParkDo::ClosePark),
        (ACK, ParkDo::SetAwake(true)),
        (ACK, ParkDo::Tick),
        (reaped(0), DONE),
    ]);
    assert!(r.driver.inner.eventfd_installed());
}

#[test]
fn installed_entries_are_not_queued_again() {
    let mut r = Reactor::new(EVERYTHING, true, None, false, false, None);
    r.driver.inner.install_eventfd();
    r.driver.inner.install_poller();
    r.follow(&[
        (NO_WAKER, ParkDo::SetAwake(false)),
        (ACK, ParkDo::RecvWaker),
        (NO_WAKER, ParkDo::OpenPark),
        (ACK, ParkDo::Wait),
    ]);
}

#[test]
fn full_queue_is_flushed_before_sleeping() {
    let mut r = Reactor::new(EVERYTHING, false, None, false, false, Some(SECOND));
    r.follow(&[
        (NO_WAKER, ParkDo::SetAwake(false)),
        (ACK, ParkDo::RecvWaker),
        (NO_WAKER, ParkDo::ReadLevel),
        // Three entries are needed and one fits.
        (QUEUED, ParkDo::Submit),
        (OK, ParkDo::Push(Sqe::PollPoller)),
        (ACK, ParkDo::Push(Sqe::ReadEventfd)),
        (ACK, ParkDo::OpenPark),
        (ACK, ParkDo::Push(Sqe::Timeout(SECOND))),
        (ACK, ParkDo::Wait),
    ]);
    assert!(r.driver.inner.eventfd_installed() && r.driver.inner.poller_installed());
}

#[test]
fn foreign_waker_keeps_the_blocking_reactor_awake() {
    let mut r = Reactor::new(SYNC, true, Some(100), false, false, None);
    r.follow(&[
        (WAKER, ParkDo::RecvWaker),
        (WAKER, ParkDo::RecvWaker),
        (NO_WAKER, ParkDo::RecvWaker),
        (NO_WAKER, ParkDo::SubmitOnce),
        (OK, ParkDo::SetAwake(true)),
        (ACK, ParkDo::Tick),
        (reaped(2), DONE),
    ]);
    // A waker that arrives after the announcement counts as well.
    let mut r = Reactor::new(SYNC, true, None, false, false, None);
    r.follow(&[
        (NO_WAKER, ParkDo::SetAwake(false)),
        (ACK, ParkDo::RecvWaker),
        (WAKER, ParkDo::RecvWaker),
        (NO_WAKER, ParkDo::SubmitOnce),
        (ParkSeen::Done(Err(failed(16))), ParkDo::Return(Err(failed(16)))),
    ]);
}

#[test]
fn blocking_reactor_spins_within_its_budget() {
    let mut r = Reactor::new(ALONE, true, Some(100), false, false, None);
    assert_eq!(r.park.action(), ParkDo::Submit);
    r.follow(&[
        (OK, ParkDo::StartClock),
        (ACK, ParkDo::Tick),
        (reaped(0), ParkDo::ReadClock),
        (ParkSeen::Elapsed(99_999), ParkDo::Pause),
        (ACK, ParkDo::Tick),
        (reaped(0), ParkDo::ReadClock),
        (ParkSeen::Elapsed(100_000), ParkDo::OpenPark),
        (ACK, ParkDo::Wait),
    ]);
    // A completion within the budget ends the park.
    let mut r = Reactor::new(SYNC, true, Some(100), false, false, None);
    r.follow(&[
        (NO_WAKER, ParkDo::SetAwake(false)),
        (ACK, ParkDo::RecvWaker),
        (NO_WAKER, ParkDo::Submit),
        (OK, ParkDo::StartClock),
        (ACK, ParkDo::Tick),
        (reaped(1), ParkDo::SetAwake(true)),
        (ACK, DONE),
    ]);
}

#[test]
fn poll_reactor_returns_on_progress() {
    let mut r = Reactor::new(SYNC, true, None, true, false, None);
    assert_eq!(r.park.action(), ParkDo::RecvWaker);
    r.follow(&[
        (NO_WAKER, ParkDo::ReadLevel),
        (EMPTY, ParkDo::Tick),
        (reaped(4), ParkDo::SetAwake(true)),
        (ACK, DONE),
    ]);
    let mut r = Reactor::new(ALONE, true, None, true, false, None);
    assert_eq!(r.park.action(), ParkDo::ReadLevel);
    r.follow(&[(QUEUED, ParkDo::Submit), (OK, ParkDo::Tick), (reaped(1), DONE)]);
}

#[test]
fn poll_reactor_with_wakers_submits_only_what_is_queued() {
    let mut r = Reactor::new(SYNC, true, None, true, false, None);
    r.follow(&[
        (WAKER, ParkDo::RecvWaker),
        (NO_WAKER, ParkDo::ReadLevel),
        (EMPTY, ParkDo::Tick),
        (reaped(0), DONE),
    ]);
    let mut r = Reactor::new(SYNC, true, None, true, false, None);
    r.follow(&[
        (WAKER, ParkDo::RecvWaker),
        (NO_WAKER, ParkDo::ReadLevel),
        (QUEUED, ParkDo::Submit),
        (OK, ParkDo::Tick),
        (reaped(0), DONE),
    ]);
}

#[test]
fn poll_reactor_spins_then_sleeps() {
    let mut r = Reactor::new(SYNC, true, None, true, false, Some(SECOND));
    r.follow(&[
        (NO_WAKER, ParkDo::ReadLevel),
        (EMPTY, ParkDo::Tick),
        (reaped(0), ParkDo::StartClock),
        (ACK, ParkDo::ReadLevel),
        (QUEUED, ParkDo::Submit),
        (OK, ParkDo::Tick),
        (reaped(0), ParkDo::ReadClock),
        (ParkSeen::Elapsed(49_999), ParkDo::Pause),
        (ACK, ParkDo::ReadLevel),
        (EMPTY, ParkDo::Tick),
        (reaped(0), ParkDo::ReadClock),
        (ParkSeen::Elapsed(50_000), ParkDo::SetAwake(false)),
        (ACK, ParkDo::RecvWaker),
        (NO_WAKER, ParkDo::ReadLevel),
        (EMPTY, ParkDo::Push(Sqe::ReadEventfd)),
        (ACK, ParkDo::OpenPark),
        (ACK, ParkDo::WaitFor(SECOND)),
        // The timer ran out: no error.
        (ParkSeen::Done(Err(failed(libc::ETIME))), ParkDo::ClosePark),
        (ACK, ParkDo::SetAwake(true)),
        (ACK, ParkDo::Tick),
        (reaped(0), DONE),
    ]);
}

#[test]
fn poll_reactor_looks_once_more_before_sleeping() {
    let mut r = Reactor::new(SYNC, true, Some(0), true, false, None);
    r.follow(&[
        (NO_WAKER, ParkDo::ReadLevel),
        (EMPTY, ParkDo::Tick),
        // No budget: straight to sleep.
        (reaped(0), ParkDo::SetAwake(false)),
        (ACK, ParkDo::RecvWaker),
        (WAKER, ParkDo::SetAwake(true)),
        (ACK, ParkDo::Submit),
        (OK, ParkDo::Tick),
        (reaped(0), DONE),
    ]);
}

#[test]
fn client_gating_suppresses_the_idle_spin() {
    let mut r = Reactor::new(ALONE, true, None, true, true, None);
    r.follow(&[(EMPTY, ParkDo::Tick), (reaped(0), ParkDo::OpenPark)]);
    let mut r = Reactor::new(ALONE, true, None, true, true, None);
    client_request_begin(&mut r.gate);
    r.follow(&[(EMPTY, ParkDo::Tick), (reaped(0), ParkDo::StartClock)]);
    // The early return on progress is not gated.
    let mut r = Reactor::new(ALONE, true, None, true, true, None);
    r.follow(&[(EMPTY, ParkDo::Tick), (reaped(1), DONE)]);
}

#[test]
fn client_gating_leaves_the_blocking_reactor_alone() {
    let script = [
        (OK, ParkDo::StartClock),
        (ACK, ParkDo::Tick),
        (reaped(0), ParkDo::ReadClock),
        (ParkSeen::Elapsed(1_000), ParkDo::OpenPark),
        (ACK, ParkDo::Wait),
    ];
    for gated in [false, true] {
        let mut r = Reactor::new(ALONE, true, Some(1), false, gated, None);
        assert_eq!(r.park.action(), ParkDo::Submit);
        r.follow(&script);
    }
}

#[test]
fn failed_wait_is_measured_and_returned() {
    let mut r = Reactor::new(ALONE, true, None, false, false, Some(SECOND));
    assert_eq!(r.park.action(), ParkDo::ReadLevel);
    r.follow(&[
        (EMPTY, ParkDo::OpenPark),
        (ACK, ParkDo::WaitFor(SECOND)),
        (ParkSeen::Done(Err(failed(4))), ParkDo::ClosePark),
        (ACK, ParkDo::Return(Err(failed(4)))),
    ]);
    // Only a wait that carries its own limit may run out.
    let mut r = Reactor::new(ALONE, false, None, false, false, Some(SECOND));
    r.follow(&[
        (EMPTY, ParkDo::OpenPark),
        (ACK, ParkDo::Push(Sqe::Timeout(SECOND))),
        (ACK, ParkDo::Wait),
        (ParkSeen::Done(Err(failed(libc::ETIME))), ParkDo::ClosePark),
        (ACK, ParkDo::Return(Err(failed(libc::ETIME)))),
    ]);
}

#[test]
fn errors_end_the_park() {
    let e = failed(22);
    let mut r = Reactor::new(ALONE, true, None, true, false, None);
    r.follow(&[
        (QUEUED, ParkDo::Submit),
        (ParkSeen::Done(Err(e)), ParkDo::Return(Err(e))),
    ]);
    let mut r = Reactor::new(ALONE, true, None, true, false, None);
    r.follow(&[(EMPTY, ParkDo::Tick), (ParkSeen::Reaped(Err(e)), ParkDo::Return(Err(e)))]);
}

#[test]
fn submit_submits_and_reaps() {
    let (mut driver, _) = IoUringDriver::<()>::new(SYNC, true, 0);
    let gate = ClientGate::new();
    let mut park = driver.submit();
    assert_eq!(park.action(), ParkDo::Submit);
    assert_eq!(driver.advance(&mut park, &gate, OK), ParkDo::Tick);
    assert_eq!(driver.advance(&mut park, &gate, reaped(3)), DONE);
}

/// Plays a park against a clock that shows each reading in turn, and gives what
/// the counter holds afterwards.
fn parked(r: &mut Reactor, readings: &[u128], answers: &[ParkSeen]) -> u64 {
    let mut counter = ReactorPark::new();
    let mut readings = readings.iter();
    let mut scope = None;
    let mut action = r.park.action();
    for seen in answers {
        match action {
            ParkDo::OpenPark => {
                scope = Some(ParkScope::new(*readings.next().expect("the clock goes on")));
            }
            ParkDo::ClosePark => {
                let scope = scope.take().expect("a measurement runs");
                scope.close(*readings.next().expect("the clock goes on"), &mut counter);
            }
            _ => {}
        }
        action = r.tell(*seen);
    }
    assert!(matches!(action, ParkDo::Return(_)));
    reactor_parked_nanos(&counter)
}

#[test]
fn only_waits_are_counted() {
    // A wait that fails counts like one that succeeds.
    let e = ParkSeen::Done(Err(failed(4)));
    let mut r = Reactor::new(ALONE, false, None, false, false, Some(SECOND));
    assert_eq!(parked(&mut r, &[100, 850], &[EMPTY, ACK, ACK, OK, ACK, reaped(0)]), 750);
    let mut r = Reactor::new(ALONE, true, None, true, false, None);
    let idle = [EMPTY, reaped(0), ACK, EMPTY, reaped(0), ParkSeen::Elapsed(50_000)];
    let mut failing = idle.to_vec();
    failing.extend([ACK, e, ACK]);
    assert_eq!(parked(&mut r, &[5, 25], &failing), 20);
    // Spinning and submitting count for nothing.
    let mut r = Reactor::new(ALONE, true, None, true, false, None);
    assert_eq!(parked(&mut r, &[], &[QUEUED, OK, reaped(0), ACK, EMPTY, reaped(1)]), 0);
}
