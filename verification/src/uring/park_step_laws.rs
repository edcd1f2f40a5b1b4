//! What a park does next, told by what has happened in it so far.
//!
//! Nothing here speaks of the phases a park goes through. Each law takes a run of
//! exchanges, looks at one of them, and says what the park asks for after it.

use vstd::prelude::*;

use crate::client_gate::ClientGate;
use crate::uring::driver::IoUringDriver;
use crate::uring::entry::{OsError, Sqe, Timespec};
use crate::uring::park::{answers, Around, ParkConfig, ParkDo, ParkPhase, ParkSeen};
use crate::uring::park_laws::{blocks, ParkRun};

verus! {

impl ParkRun {
    /// How often the first `k` exchanges found no foreign waker.
    pub open spec fn misses(self, k: int) -> nat
        decreases k,
    {
        if k <= 0 {
            0
        } else {
            self.misses(k - 1) + if self.seen(k - 1) == ParkSeen::Waker(false) { 1nat } else { 0nat }
        }
    }

    /// Whether the first `k` exchanges brought a foreign waker.
    pub open spec fn woken(self, k: int) -> bool
        decreases k,
    {
        k > 0 && (self.woken(k - 1) || self.seen(k - 1) == ParkSeen::Waker(true))
    }

    /// Whether one of the first `k` actions was a wait.
    pub open spec fn waited(self, k: int) -> bool
        decreases k,
    {
        k > 0 && (self.waited(k - 1) || blocks(self.action(k - 1)))
    }

    /// Whether one of the first `k` actions started the spin clock.
    pub open spec fn spun(self, k: int) -> bool
        decreases k,
    {
        k > 0 && (self.spun(k - 1) || self.action(k - 1) is StartClock)
    }

    /// Whether one of the first `k` actions was a reap.
    pub open spec fn reaped(self, k: int) -> bool
        decreases k,
    {
        k > 0 && (self.reaped(k - 1) || self.action(k - 1) is Tick)
    }

    /// Whether the look at the submission queue at `k` is one for room: any look of
    /// the blocking reactor, and of the poll-reactor one that comes after a reap and
    /// does not begin a round of spinning.
    pub open spec fn looks_for_room(self, k: int) -> bool {
        &&& self.action(k) is ReadLevel
        &&& !self.config.poll_reactor || (self.reaped(k) && !(self.action(k - 1) is StartClock)
            && !(self.action(k - 1) is Pause))
    }

    /// What was found around the park before exchange `k`.
    pub open spec fn around_before(self, k: int) -> Around {
        if k <= 0 {
            self.around
        } else {
            self.moments[k - 1].around
        }
    }
}

/// How many entries a park has to queue before it may block: the read of the
/// wake-up eventfd and the wait for the readiness poller where the ring does not
/// hold them, and a timeout where there is a time limit.
pub open spec fn lacking(config: ParkConfig, around: Around) -> int {
    (if config.features.sync && !around.eventfd_installed {
        1int
    } else {
        0int
    }) + (if config.features.poll_io && !around.poller_installed {
        1int
    } else {
        0int
    }) + (if config.timeout is Some {
        1int
    } else {
        0int
    })
}

/// How a park that has made up its mind goes to sleep: by a look for room where it
/// has entries to queue, at once where it has none.
pub open spec fn to_sleep(config: ParkConfig, around: Around) -> ParkDo {
    if lacking(config, around) > 0 {
        ParkDo::ReadLevel
    } else {
        ParkDo::OpenPark
    }
}

/// How a park that found nothing to do goes about sleeping: the poll-reactor tells
/// the other threads first, where there are any; the blocking reactor has done so.
pub open spec fn to_bed(config: ParkConfig, around: Around) -> ParkDo {
    if config.poll_reactor && config.features.sync {
        ParkDo::SetAwake(false)
    } else {
        to_sleep(config, around)
    }
}

/// How the entries that the ring lacks are queued: the poller's, then the
/// eventfd's, then the wait is opened.
pub open spec fn to_queue(config: ParkConfig, around: Around) -> ParkDo {
    if config.features.poll_io && !around.poller_installed {
        ParkDo::Push(Sqe::PollPoller)
    } else if config.features.sync && !around.eventfd_installed {
        ParkDo::Push(Sqe::ReadEventfd)
    } else {
        ParkDo::OpenPark
    }
}

/// The history that each phase stands for.
spec fn stands_for(run: ParkRun, k: int) -> bool {
    let config = run.config;
    let sync = config.features.sync;
    let poll = config.poll_reactor;
    let idle = !run.woken(k) && !run.waited(k);
    let before: nat = if !sync {
        0
    } else if poll {
        1
    } else {
        2
    };
    let asleep: nat = if sync {
        2
    } else {
        0
    };
    match run.phase(k) {
        ParkPhase::PollDrain { woken } => {
            &&& poll && sync && run.misses(k) == 0 && run.woken(k) == woken
            &&& !run.waited(k) && !run.spun(k) && !run.reaped(k)
        },
        ParkPhase::PollWokenLevel => poll && sync && run.woken(k) && !run.waited(k)
            && !run.reaped(k),
        ParkPhase::PollLevel => poll && idle && !run.spun(k) && !run.reaped(k) && run.misses(k)
            == before,
        ParkPhase::PollSubmit => poll && idle && !run.spun(k) && !run.reaped(k) && run.misses(k)
            == before && k > 0 && run.action(k - 1) is ReadLevel && !run.looks_for_room(k - 1),
        ParkPhase::PollTick => poll && idle && !run.spun(k) && !run.reaped(k) && run.misses(k)
            == before,
        ParkPhase::Drain { woken } => !poll && sync && run.misses(k) == 0 && run.woken(k) == woken
            && !run.waited(k) && !run.spun(k),
        ParkPhase::Doze => !poll && sync && run.misses(k) == 1 && idle && !run.spun(k),
        ParkPhase::DrainAgain { woken } => !poll && sync && run.misses(k) == 1 && run.woken(k)
            == woken && !run.waited(k) && !run.spun(k),
        ParkPhase::SubmitOnly => !poll && sync && run.woken(k) && !run.waited(k),
        ParkPhase::SpinFlush => !poll && idle && !run.spun(k) && run.misses(k) == before
            && config.poll_spin_us is Some && (k > 0 ==> run.action(k - 1) is RecvWaker),
        ParkPhase::SpinStart => idle && !run.spun(k) && run.misses(k) == before && (poll
            ==> run.reaped(k)) && (!poll ==> config.poll_spin_us is Some),
        ParkPhase::SpinLevel => poll && idle && run.spun(k) && run.reaped(k) && run.misses(k)
            == before && k > 0 && (run.action(k - 1) is StartClock || run.action(k - 1) is Pause),
        ParkPhase::SpinSubmit => poll && idle && run.spun(k) && run.reaped(k) && run.misses(k)
            == before && k > 0 && run.action(k - 1) is ReadLevel && !run.looks_for_room(k - 1),
        ParkPhase::SpinTick | ParkPhase::SpinClock | ParkPhase::SpinPause => idle && run.spun(k)
            && run.misses(k) == before && (poll ==> run.reaped(k)) && (!poll
            ==> config.poll_spin_us is Some),
        ParkPhase::PollDoze | ParkPhase::PollRecheck => poll && sync && idle && run.misses(k) == 1
            && run.reaped(k),
        ParkPhase::PollStir => poll && sync && run.woken(k) && !run.waited(k),
        ParkPhase::Reserve { need } => {
            &&& idle && run.misses(k) == asleep && (poll ==> run.reaped(k))
            &&& need == lacking(config, run.around_before(k)) && need > 0
            &&& k > 0 ==> !(run.action(k - 1) is StartClock) && !(run.action(k - 1) is Pause)
        },
        ParkPhase::ReserveFlush => idle && k > 0 && run.looks_for_room(k - 1),
        ParkPhase::PushPoller => idle && config.features.poll_io,
        ParkPhase::PushEventfd => idle && sync,
        ParkPhase::OpenPark => idle,
        ParkPhase::PushTimeout(limit) => idle && config.timeout == Some(limit) && !config.ext_arg,
        ParkPhase::Wait => idle,
        ParkPhase::WaitFor(limit) => idle && config.timeout == Some(limit) && config.ext_arg,
        ParkPhase::ClosePark { outcome } => {
            &&& !run.woken(k) && run.waited(k) && k > 0 && blocks(run.action(k - 1))
            &&& run.seen(k - 1) matches ParkSeen::Done(done) && match done {
                Ok(_) => outcome is Ok,
                Err(e) => if run.action(k - 1) is WaitFor && e.code == Some(config.errnos.time) {
                    outcome is Ok
                } else {
                    outcome == Err::<(), OsError>(e)
                },
            }
        },
        ParkPhase::Awaken => sync && ((run.woken(k) && !poll) || (!run.woken(k) && run.waited(k))),
        ParkPhase::AwakenAndReturn => sync && idle,
        ParkPhase::LastSubmit => poll && sync && run.woken(k) && k > 0 && (run.action(k - 1)
            == ParkDo::SetAwake(true) || (run.action(k - 1) is ReadLevel && !run.looks_for_room(
            k - 1,
        ))),
        ParkPhase::LastTick => run.woken(k) || run.waited(k),
        ParkPhase::Over(_) => true,
    }
}

proof fn lemma_stands_for(run: ParkRun, k: int)
    requires
        run.valid(),
        0 <= k <= run.moments.len(),
    ensures
        stands_for(run, k),
    decreases k,
{
    if k > 0 {
        lemma_stands_for(run, k - 1);
        assert(answers(run.action(k - 1), run.seen(k - 1)));
    }
}

proof fn lemma_at(run: ParkRun, k: int)
    requires
        run.valid(),
        0 <= k < run.moments.len(),
    ensures
        stands_for(run, k),
        stands_for(run, k + 1),
        answers(run.action(k), run.seen(k)),
        run.phase(k + 1) == run.config.next(
            run.moments[k].around,
            run.phase(k),
            run.moments[k].seen,
        ),
{
    lemma_stands_for(run, k);
    lemma_stands_for(run, k + 1);
    assert(answers(run.action(k), run.seen(k)));
}

/// Where other threads may wake this one a park begins by looking for their
/// wakers. Otherwise the poll-reactor looks at what is queued, and the blocking
/// reactor submits before it spins, or goes to sleep where it is not to spin.
pub proof fn law_park_begins(run: ParkRun)
    ensures
        run.action(0) == if run.config.features.sync {
            ParkDo::RecvWaker
        } else if run.config.poll_reactor {
            ParkDo::ReadLevel
        } else if run.config.poll_spin_us is Some {
            ParkDo::Submit
        } else {
            to_sleep(run.config, run.around)
        },
{
}

/// Wakers are drained: as long as there is one the park looks for another, but for
/// the poll-reactor's second look, which one waker ends. A drain that brought
/// none leads on towards sleep, one that brought some to submission only.
pub proof fn law_wakers_are_drained(run: ParkRun, k: int)
    requires
        run.valid(),
        0 <= k < run.moments.len(),
        run.action(k) is RecvWaker,
    ensures
        run.seen(k) == ParkSeen::Waker(true) ==> run.action(k + 1) == if run.config.poll_reactor
            && run.misses(k) == 1 {
            ParkDo::SetAwake(true)
        } else {
            ParkDo::RecvWaker
        },
        run.seen(k) == ParkSeen::Waker(false) && run.config.poll_reactor ==> run.action(k + 1)
            == if run.misses(k) == 0 {
            ParkDo::ReadLevel
        } else {
            to_sleep(run.config, run.moments[k].around)
        },
        run.seen(k) == ParkSeen::Waker(false) && !run.config.poll_reactor ==> run.action(k + 1)
            == if run.misses(k) == 0 {
            if run.woken(k) {
                ParkDo::RecvWaker
            } else {
                ParkDo::SetAwake(false)
            }
        } else if run.woken(k) {
            ParkDo::SubmitOnce
        } else if run.config.poll_spin_us is Some {
            ParkDo::Submit
        } else {
            to_sleep(run.config, run.moments[k].around)
        },
{
    lemma_at(run, k);
}

/// Whenever the poll-reactor looks whether entries are queued, it submits them if
/// there is even one, and goes on to reap if there is none. Those are all its looks
/// at the queue but the one for room.
pub proof fn law_queued_entries_are_submitted(run: ParkRun, k: int)
    requires
        run.valid(),
        run.config.poll_reactor,
        0 <= k < run.moments.len(),
        run.action(k) is ReadLevel,
    ensures
        run.looks_for_room(k) <==> run.phase(k) is Reserve,
        !(run.phase(k) is Reserve) ==> (run.seen(k) matches ParkSeen::Level(level) && run.action(
            k + 1,
        ) == if level.len > 0 {
            ParkDo::Submit
        } else {
            ParkDo::Tick
        }),
{
    lemma_at(run, k);
}

/// A look for room flushes the queue exactly if the entries that the ring lacked
/// when the park made up its mind do not fit, and queues them right away if they
/// do.
pub proof fn law_room_is_made_where_missing(run: ParkRun, k: int)
    requires
        run.valid(),
        0 <= k < run.moments.len(),
        run.looks_for_room(k),
    ensures
        run.seen(k) matches ParkSeen::Level(level) && run.action(k + 1) == if level.len + lacking(
            run.config,
            run.around_before(k),
        ) > level.capacity {
            ParkDo::Submit
        } else {
            to_queue(run.config, run.moments[k].around)
        },
{
    lemma_at(run, k);
}

/// What follows a submission: its error if it failed. If it succeeded, the entries
/// that the ring lacks if it was made for room; otherwise a reap on the
/// poll-reactor, and the start of the spin on the blocking one.
pub proof fn law_submission_is_followed_up(run: ParkRun, k: int)
    requires
        run.valid(),
        0 <= k < run.moments.len(),
        run.action(k) is Submit,
    ensures
        run.seen(k) matches ParkSeen::Done(done) && run.action(k + 1) == match done {
            Err(e) => ParkDo::Return(Err(e)),
            Ok(_) => if k > 0 && run.looks_for_room(k - 1) {
                to_queue(run.config, run.moments[k].around)
            } else if run.config.poll_reactor {
                ParkDo::Tick
            } else {
                ParkDo::StartClock
            },
        },
{
    lemma_at(run, k);
}

/// What follows a reap. A park that was woken or has waited is over. Any other is
/// over if the reap brought something, once the other threads know. If it brought
/// nothing, a spinning park looks at the clock; the poll-reactor that has not spun
/// yet does so if it has a budget and is not gated out, and else goes to bed.
pub proof fn law_reap_decides(run: ParkRun, k: int)
    requires
        run.valid(),
        0 <= k < run.moments.len(),
        run.action(k) is Tick,
    ensures
        run.seen(k) matches ParkSeen::Reaped(reaped) && run.action(k + 1) == match reaped {
            Err(e) => ParkDo::Return(Err(e)),
            Ok(n) => if run.woken(k) || run.waited(k) {
                ParkDo::Return(Ok(()))
            } else if n > 0 {
                if run.config.features.sync {
                    ParkDo::SetAwake(true)
                } else {
                    ParkDo::Return(Ok(()))
                }
            } else if run.spun(k) {
                ParkDo::ReadClock
            } else if run.config.poll_spin_us != Some(0u64) && (
            !run.config.poll_reactor_client_gated || run.moments[k].around.client_in_flight) {
                ParkDo::StartClock
            } else {
                to_bed(run.config, run.moments[k].around)
            },
        },
{
    lemma_at(run, k);
}

/// The budget of a spin is the microseconds that are set, or 50 where none are: the
/// spin goes on as long as less than that has passed, and not a moment longer.
pub proof fn law_spin_keeps_its_budget(run: ParkRun, k: int)
    requires
        run.valid(),
        0 <= k < run.moments.len(),
    ensures
        run.action(k) is StartClock || run.action(k) is Pause ==> run.action(k + 1)
            == if run.config.poll_reactor {
            ParkDo::ReadLevel
        } else {
            ParkDo::Tick
        },
        run.action(k) is ReadClock ==> (run.seen(k) matches ParkSeen::Elapsed(nanos)
            && run.action(k + 1) == if nanos < 1000 * match run.config.poll_spin_us {
            Some(us) => us as int,
            None => 50int,
        } {
            ParkDo::Pause
        } else {
            to_bed(run.config, run.moments[k].around)
        }),
{
    lemma_at(run, k);
}

/// What follows an announcement. One of sleep is followed by another look for
/// wakers. One of being awake is followed by a submission if a waker kept the
/// poll-reactor from sleeping, by the last reap if the park was woken otherwise or
/// has waited, and by the return if it made progress.
pub proof fn law_announcements_are_followed_up(run: ParkRun, k: int)
    requires
        run.valid(),
        0 <= k < run.moments.len(),
    ensures
        run.action(k) == ParkDo::SetAwake(false) ==> run.action(k + 1) is RecvWaker,
        run.action(k) == ParkDo::SetAwake(true) ==> run.action(k + 1) == if run.woken(k) {
            if run.config.poll_reactor {
                ParkDo::Submit
            } else {
                ParkDo::Tick
            }
        } else if run.waited(k) {
            ParkDo::Tick
        } else {
            ParkDo::Return(Ok(()))
        },
{
    lemma_at(run, k);
}

/// The ring's own entries are queued one after the other, the eventfd's after the
/// poller's, and then the wait is opened. A wait with a time limit carries it, or
/// has its entry queued first.
pub proof fn law_way_to_the_wait(run: ParkRun, k: int)
    requires
        run.valid(),
        0 <= k < run.moments.len(),
    ensures
        run.action(k) == ParkDo::Push(Sqe::PollPoller) ==> run.action(k + 1)
            == if run.config.features.sync && !run.moments[k].around.eventfd_installed {
            ParkDo::Push(Sqe::ReadEventfd)
        } else {
            ParkDo::OpenPark
        },
        run.action(k) == ParkDo::Push(Sqe::ReadEventfd) ==> run.action(k + 1) is OpenPark,
        run.action(k) is OpenPark ==> run.action(k + 1) == match run.config.timeout {
            None => ParkDo::Wait,
            Some(limit) => if run.config.ext_arg {
                ParkDo::WaitFor(limit)
            } else {
                ParkDo::Push(Sqe::Timeout(limit))
            },
        },
        run.action(k) matches ParkDo::Push(Sqe::Timeout(_)) ==> run.action(k + 1) is Wait,
        run.action(k) matches ParkDo::Push(entry) ==> !(entry is AsyncCancel) && !(entry
            is Operation),
{
    lemma_at(run, k);
}

/// What follows a wait: its measurement is closed; then a failure is returned,
/// unless it is a bounded wait's that its timer ran out, and otherwise the park
/// tells the other threads, where there are any, and reaps.
pub proof fn law_wait_is_followed_up(run: ParkRun, k: int)
    requires
        run.valid(),
        0 <= k < run.moments.len(),
    ensures
        blocks(run.action(k)) ==> run.action(k + 1) is ClosePark,
        run.action(k) is ClosePark ==> k > 0 && run.action(k + 1) == match run.seen(k - 1) {
            ParkSeen::Done(Err(e)) => if run.action(k - 1) is WaitFor && e.code == Some(
                run.config.errnos.time,
            ) {
                after_sleep(run.config)
            } else {
                ParkDo::Return(Err(e))
            },
            _ => after_sleep(run.config),
        },
        run.action(k) is SubmitOnce ==> run.action(k + 1) == match run.seen(k) {
            ParkSeen::Done(Err(e)) => ParkDo::Return(Err(e)),
            _ => ParkDo::SetAwake(true),
        },
{
    lemma_at(run, k);
}

/// What a park does first once it no longer sleeps.
pub open spec fn after_sleep(config: ParkConfig) -> ParkDo {
    if config.features.sync {
        ParkDo::SetAwake(true)
    } else {
        ParkDo::Tick
    }
}

/// A park that only submits and reaps does just that: it submits, reaps once if
/// that succeeded, and returns the first error or success.
pub proof fn law_submit_submits_and_reaps(
    config: ParkConfig,
    first: Around,
    second: Around,
    done: Result<(), OsError>,
    reaped: Result<usize, OsError>,
)
    ensures
        ({
            let begun = ParkPhase::LastSubmit;
            let submitted = config.next(first, begun, ParkSeen::Done(done));
            &&& begun.action() is Submit
            &&& match done {
                Err(e) => submitted.action() == ParkDo::Return(Err(e)),
                Ok(_) => {
                    &&& submitted.action() is Tick
                    &&& config.next(second, submitted, ParkSeen::Reaped(reaped)).action()
                        == ParkDo::Return(
                        match reaped {
                            Ok(_) => Ok(()),
                            Err(e) => Err(e),
                        },
                    )
                },
            }
        }),
{
}

/// A park goes by the settings of its driver, and by what that driver's ring and
/// that shard's clients show at the moment: a single client request in flight
/// counts.
pub proof fn law_park_goes_by_its_driver<D>(
    driver: &IoUringDriver<D>,
    gate: &ClientGate,
    timeout: Option<Timespec>,
)
    ensures
        driver.around(gate).client_in_flight <==> gate@ != 0,
        driver.around(gate).eventfd_installed == driver.inner.state().eventfd_installed,
        driver.around(gate).poller_installed == driver.inner.state().poller_installed,
        driver.park_config(timeout).features == driver.inner.spec_features(),
        driver.park_config(timeout).errnos == driver.inner.spec_errnos(),
        driver.park_config(timeout).ext_arg == driver.inner.spec_ext_arg(),
        driver.park_config(timeout).poll_spin_us == driver.poll_spin_us,
        driver.park_config(timeout).poll_reactor == driver.poll_reactor,
        driver.park_config(timeout).poll_reactor_client_gated == driver.poll_reactor_client_gated,
        driver.park_config(timeout).timeout == timeout,
{
}

/// A driver records an entry of the ring's own as held exactly when a park asks
/// for it to be queued, and leaves its operations and settings alone.
pub proof fn law_driver_notes_what_is_queued<D>(
    before: &IoUringDriver<D>,
    after: &IoUringDriver<D>,
    phase: ParkPhase,
)
    requires
        after.noted(before, phase),
    ensures
        after.inner.state().eventfd_installed <==> before.inner.state().eventfd_installed
            || phase.action() == ParkDo::Push(Sqe::ReadEventfd),
        after.inner.state().poller_installed <==> before.inner.state().poller_installed
            || phase.action() == ParkDo::Push(Sqe::PollPoller),
        after.inner.state().ops == before.inner.state().ops,
        after.inner.spec_features() == before.inner.spec_features(),
        after.inner.spec_errnos() == before.inner.spec_errnos(),
        after.inner.spec_ext_arg() == before.inner.spec_ext_arg(),
        after.inner.receiver() == before.inner.receiver(),
        after.poll_spin_us == before.poll_spin_us,
        after.poll_reactor == before.poll_reactor,
        after.poll_reactor_client_gated == before.poll_reactor_client_gated,
        after.thread_id == before.thread_id,
{
}

} // verus!
