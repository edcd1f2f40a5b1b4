//! What holds of every park, whatever the host observes.

use vstd::prelude::*;

use crate::client_gate::ClientGate;
use crate::uring::driver::IoUringDriver;
use crate::uring::entry::{OsError, Sqe};
use crate::uring::park::{answers, Around, ParkConfig, ParkDo, ParkPhase, ParkSeen};

verus! {

/// One exchange with the host.
pub struct Moment {
    /// What the park's action brought.
    pub seen: ParkSeen,
    /// What the park found around it then.
    pub around: Around,
}

/// A park from its beginning, with everything the host has told it so far.
pub struct ParkRun {
    pub config: ParkConfig,
    /// What the park found around it when it began.
    pub around: Around,
    pub moments: Seq<Moment>,
}

/// Whether the action blocks the thread.
pub open spec fn blocks(action: ParkDo) -> bool {
    action is Wait || action is WaitFor
}

impl ParkRun {
    /// Where the park stands after `k` exchanges.
    pub open spec fn phase(self, k: int) -> ParkPhase
        decreases k,
    {
        if k <= 0 {
            self.config.first(self.around)
        } else {
            self.config.next(
                self.moments[k - 1].around,
                self.phase(k - 1),
                self.moments[k - 1].seen,
            )
        }
    }

    /// The action the park asks for after `k` exchanges.
    pub open spec fn action(self, k: int) -> ParkDo {
        self.phase(k).action()
    }

    pub open spec fn seen(self, k: int) -> ParkSeen {
        self.moments[k].seen
    }

    /// Whether the host answered every action.
    pub open spec fn valid(self) -> bool {
        forall|k: int| 0 <= k < self.moments.len() ==> answers(self.action(k), #[trigger] self.seen(k))
    }
}

/// The phases that the configured reactor goes through.
spec fn fits(config: ParkConfig, phase: ParkPhase) -> bool {
    match phase {
        ParkPhase::PollDrain { .. } | ParkPhase::PollWokenLevel | ParkPhase::PollRecheck
        | ParkPhase::PollDoze | ParkPhase::PollStir => config.poll_reactor && config.features.sync,
        ParkPhase::PollLevel | ParkPhase::PollSubmit | ParkPhase::PollTick | ParkPhase::SpinLevel
        | ParkPhase::SpinSubmit => config.poll_reactor,
        ParkPhase::Drain { .. } | ParkPhase::Doze | ParkPhase::DrainAgain { .. }
        | ParkPhase::SubmitOnly => !config.poll_reactor && config.features.sync,
        ParkPhase::SpinFlush => !config.poll_reactor,
        ParkPhase::Awaken | ParkPhase::AwakenAndReturn => config.features.sync,
        ParkPhase::Reserve { need } => 0 < need <= 3,
        ParkPhase::PushTimeout(timeout) => config.timeout == Some(timeout) && !config.ext_arg,
        ParkPhase::WaitFor(timeout) => config.timeout == Some(timeout) && config.ext_arg,
        ParkPhase::Wait => config.timeout is None || !config.ext_arg,
        _ => true,
    }
}

proof fn lemma_fits(run: ParkRun, k: int)
    requires
        run.valid(),
        0 <= k <= run.moments.len(),
    ensures
        fits(run.config, run.phase(k)),
    decreases k,
{
    if k > 0 {
        lemma_fits(run, k - 1);
        assert(answers(run.action(k - 1), run.seen(k - 1)));
    }
}

/// The phases of a park that has taken a foreign waker.
spec fn stirred(phase: ParkPhase) -> bool {
    match phase {
        ParkPhase::PollDrain { woken } => woken,
        ParkPhase::Drain { woken } => woken,
        ParkPhase::DrainAgain { woken } => woken,
        ParkPhase::PollWokenLevel | ParkPhase::SubmitOnly | ParkPhase::PollStir
        | ParkPhase::Awaken | ParkPhase::LastSubmit | ParkPhase::LastTick
        | ParkPhase::Over(_) => true,
        _ => false,
    }
}

/// A park in which a foreign waker arrived does not block any more: no wake-up
/// is slept through.
pub proof fn law_woken_park_never_blocks(run: ParkRun, i: int, j: int)
    requires
        run.valid(),
        0 <= i < j <= run.moments.len(),
        run.seen(i) == ParkSeen::Waker(true),
    ensures
        !blocks(run.action(j)),
{
    lemma_stirred(run, i, j);
}

proof fn lemma_stirred(run: ParkRun, i: int, j: int)
    requires
        run.valid(),
        0 <= i < j <= run.moments.len(),
        run.seen(i) == ParkSeen::Waker(true),
    ensures
        stirred(run.phase(j)),
    decreases j,
{
    assert(answers(run.action(j - 1), run.seen(j - 1)));
    if i < j - 1 {
        lemma_stirred(run, i, j - 1);
    }
}

/// A park that reaps a completion is over at once; where other threads may be
/// waiting to know, it tells them so first. It never blocks on top of work.
pub proof fn law_progress_returns_at_once(run: ParkRun, i: int)
    requires
        run.valid(),
        0 <= i < run.moments.len(),
        run.seen(i) matches ParkSeen::Reaped(Ok(n)) && n > 0,
    ensures
        run.action(i + 1) == ParkDo::Return(Ok(())) || (run.action(i + 1) == ParkDo::SetAwake(true)
            && (i + 1 < run.moments.len() ==> run.action(i + 2) == ParkDo::Return(Ok(())))),
{
    assert(answers(run.action(i), run.seen(i)));
    if i + 1 < run.moments.len() {
        assert(answers(run.action(i + 1), run.seen(i + 1)));
        assert(run.phase(i + 2) == run.config.next(
            run.moments[i + 1].around,
            run.phase(i + 1),
            run.moments[i + 1].seen,
        ));
    }
}

/// The phases of a park that has told the other threads it sleeps and found no
/// waker after that.
spec fn settled(config: ParkConfig, phase: ParkPhase) -> bool {
    match phase {
        ParkPhase::SpinFlush | ParkPhase::SpinStart | ParkPhase::SpinTick | ParkPhase::SpinClock
        | ParkPhase::SpinPause => !config.poll_reactor,
        ParkPhase::Reserve { .. } | ParkPhase::ReserveFlush | ParkPhase::PushPoller
        | ParkPhase::PushEventfd | ParkPhase::OpenPark | ParkPhase::PushTimeout(_)
        | ParkPhase::Wait | ParkPhase::WaitFor(_) => true,
        _ => false,
    }
}

/// Whether the park published at `i` that it sleeps, looked for a waker right
/// after that, found none, and has not taken the announcement back up to `j`.
pub open spec fn fell_asleep(run: ParkRun, i: int, j: int) -> bool {
    &&& 0 <= i
    &&& i + 1 < j
    &&& run.action(i) == ParkDo::SetAwake(false)
    &&& run.action(i + 1) == ParkDo::RecvWaker
    &&& run.seen(i + 1) == ParkSeen::Waker(false)
    &&& forall|k: int| i < k < j ==> #[trigger] run.action(k) != ParkDo::SetAwake(true)
}

/// Where other threads may wake this one, a park blocks only after it has
/// published that it sleeps and then looked for wakers once more: a thread that
/// hands in a waker after that look sees that it has to end the sleep.
pub proof fn law_sleep_is_announced_first(run: ParkRun, j: int)
    requires
        run.valid(),
        run.config.features.sync,
        0 <= j <= run.moments.len(),
        blocks(run.action(j)),
    ensures
        exists|i: int| fell_asleep(run, i, j),
{
    lemma_settled(run, j);
}

proof fn lemma_settled(run: ParkRun, j: int)
    requires
        run.valid(),
        run.config.features.sync,
        0 <= j <= run.moments.len(),
        settled(run.config, run.phase(j)),
    ensures
        exists|i: int| fell_asleep(run, i, j),
    decreases j,
{
    assert(j > 0);
    assert(answers(run.action(j - 1), run.seen(j - 1)));
    lemma_fits(run, j - 1);
    if settled(run.config, run.phase(j - 1)) {
        let before = j - 1;
        lemma_settled(run, before);
        let i = choose|i: int| fell_asleep(run, i, before);
        assert(fell_asleep(run, i, j));
    } else {
        assert(run.phase(j - 1) == (ParkPhase::DrainAgain { woken: false }) || run.phase(j - 1)
            == ParkPhase::PollRecheck);
        assert(j - 1 > 0);
        assert(answers(run.action(j - 2), run.seen(j - 2)));
        assert(run.phase(j - 1) == run.config.next(
            run.moments[j - 2].around,
            run.phase(j - 2),
            run.moments[j - 2].seen,
        ));
        assert(fell_asleep(run, j - 2, j));
    }
}

impl ParkRun {
    /// What the other threads have last been told after `k` exchanges, if they
    /// were told `at_first` before the park.
    pub open spec fn awake(self, at_first: bool, k: int) -> bool
        decreases k,
    {
        if k <= 0 {
            at_first
        } else {
            match self.action(k - 1) {
                ParkDo::SetAwake(awake) => awake,
                _ => self.awake(at_first, k - 1),
            }
        }
    }
}

/// The phases in which the other threads may believe that this one sleeps.
spec fn may_be_dozing(config: ParkConfig, phase: ParkPhase) -> bool {
    match phase {
        ParkPhase::DrainAgain { .. } | ParkPhase::SubmitOnly | ParkPhase::PollRecheck
        | ParkPhase::PollStir | ParkPhase::ClosePark { .. } | ParkPhase::Awaken
        | ParkPhase::AwakenAndReturn | ParkPhase::Over(Err(_)) => true,
        _ => settled(config, phase),
    }
}

/// A park that began with this thread known to be awake, and that returns
/// without an error, leaves it known to be awake.
pub proof fn law_success_returns_awake(run: ParkRun, j: int)
    requires
        run.valid(),
        run.config.features.sync,
        0 <= j <= run.moments.len(),
        run.action(j) == ParkDo::Return(Ok(())),
    ensures
        run.awake(true, j),
{
    lemma_dozing(run, j);
}

proof fn lemma_dozing(run: ParkRun, j: int)
    requires
        run.valid(),
        run.config.features.sync,
        0 <= j <= run.moments.len(),
    ensures
        run.awake(true, j) || may_be_dozing(run.config, run.phase(j)),
    decreases j,
{
    if j > 0 {
        lemma_dozing(run, j - 1);
        lemma_fits(run, j - 1);
        assert(answers(run.action(j - 1), run.seen(j - 1)));
    }
}

/// Parked time is measured around every wait: the measurement is opened just
/// before it, with at most the entry of its timeout in between, and closed just
/// after it, whether the wait succeeded or failed.
pub proof fn law_every_wait_is_measured(run: ParkRun, j: int)
    requires
        run.valid(),
        0 <= j <= run.moments.len(),
        blocks(run.action(j)),
    ensures
        j > 0,
        run.action(j - 1) is OpenPark || (j > 1 && run.action(j - 1) is Push && run.action(j - 2)
            is OpenPark),
        j < run.moments.len() ==> run.action(j + 1) is ClosePark,
{
    lemma_fits(run, j);
    assert(j > 0);
    assert(answers(run.action(j - 1), run.seen(j - 1)));
    if !(run.action(j - 1) is OpenPark) {
        assert(run.phase(j - 1) is PushTimeout);
        assert(j > 1);
        assert(answers(run.action(j - 2), run.seen(j - 2)));
        assert(run.phase(j - 1) == run.config.next(
            run.moments[j - 2].around,
            run.phase(j - 2),
            run.moments[j - 2].seen,
        ));
    }
    if j < run.moments.len() {
        assert(answers(run.action(j), run.seen(j)));
        assert(run.phase(j + 1) == run.config.next(
            run.moments[j].around,
            run.phase(j),
            run.moments[j].seen,
        ));
    }
}

/// Nothing but a wait is measured: a measurement is closed only right after a
/// wait, and once opened it is followed by a wait, with at most the entry of its
/// timeout in between.
pub proof fn law_only_waits_are_measured(run: ParkRun, i: int)
    requires
        run.valid(),
        0 <= i <= run.moments.len(),
    ensures
        run.action(i) is ClosePark ==> i > 0 && blocks(run.action(i - 1)),
        run.action(i) is OpenPark && i < run.moments.len() ==> blocks(run.action(i + 1)) || (
        run.action(i + 1) is Push && (i + 1 < run.moments.len() ==> blocks(run.action(i + 2)))),
{
    if i > 0 {
        assert(answers(run.action(i - 1), run.seen(i - 1)));
        assert(run.phase(i) == run.config.next(
            run.moments[i - 1].around,
            run.phase(i - 1),
            run.moments[i - 1].seen,
        ));
    }
    if run.action(i) is OpenPark && i < run.moments.len() {
        assert(answers(run.action(i), run.seen(i)));
        assert(run.phase(i + 1) == run.config.next(
            run.moments[i].around,
            run.phase(i),
            run.moments[i].seen,
        ));
        if i + 1 < run.moments.len() {
            assert(answers(run.action(i + 1), run.seen(i + 1)));
            assert(run.phase(i + 2) == run.config.next(
                run.moments[i + 1].around,
                run.phase(i + 1),
                run.moments[i + 1].seen,
            ));
        }
    }
}

/// A park waits at most once: what follows a measurement that was closed is
/// neither a wait nor another measurement.
pub proof fn law_park_waits_at_most_once(run: ParkRun, i: int, j: int)
    requires
        run.valid(),
        0 <= i < j <= run.moments.len(),
        run.action(i) is ClosePark,
    ensures
        !blocks(run.action(j)),
        !(run.action(j) is OpenPark),
        !(run.action(j) is ClosePark),
{
    lemma_after_wait(run, i, j);
}

proof fn lemma_after_wait(run: ParkRun, i: int, j: int)
    requires
        run.valid(),
        0 <= i < j <= run.moments.len(),
        run.action(i) is ClosePark,
    ensures
        run.phase(j) is Awaken || run.phase(j) is LastTick || run.phase(j) is Over,
    decreases j,
{
    assert(answers(run.action(j - 1), run.seen(j - 1)));
    if i < j - 1 {
        lemma_after_wait(run, i, j - 1);
    }
}

/// A measurement that is opened is closed before the park returns: after it was
/// opened there is only a timeout's entry and the wait, and then it is closed.
pub proof fn law_open_measurement_is_closed(run: ParkRun, i: int, j: int)
    requires
        run.valid(),
        0 <= i < j <= run.moments.len(),
        run.action(i) is OpenPark,
        run.action(j) is Return,
    ensures
        exists|k: int| i < k < j && #[trigger] run.action(k) is ClosePark,
{
    assert(answers(run.action(i), run.seen(i)));
    assert(run.phase(i + 1) == run.config.next(
        run.moments[i].around,
        run.phase(i),
        run.moments[i].seen,
    ));
    assert(i + 1 < j);
    assert(answers(run.action(i + 1), run.seen(i + 1)));
    assert(run.phase(i + 2) == run.config.next(
        run.moments[i + 1].around,
        run.phase(i + 1),
        run.moments[i + 1].seen,
    ));
    assert(i + 2 < j);
    if run.action(i + 2) is ClosePark {
        assert(i < i + 2 < j);
    } else {
        assert(answers(run.action(i + 2), run.seen(i + 2)));
        assert(run.phase(i + 3) == run.config.next(
            run.moments[i + 2].around,
            run.phase(i + 2),
            run.moments[i + 2].seen,
        ));
        assert(run.action(i + 3) is ClosePark);
        assert(i + 3 < j);
    }
}

/// A park with a time limit never waits without one: the limit is carried by the
/// wait itself, or by an entry queued just before it. A park without a limit waits
/// without one.
pub proof fn law_time_limit_is_kept(run: ParkRun, j: int)
    requires
        run.valid(),
        0 <= j <= run.moments.len(),
        blocks(run.action(j)),
    ensures
        match run.config.timeout {
            Some(limit) => if run.config.ext_arg {
                run.action(j) == ParkDo::WaitFor(limit)
            } else {
                &&& run.action(j) is Wait
                &&& j > 0
                &&& run.action(j - 1) == ParkDo::Push(Sqe::Timeout(limit))
            },
            None => run.action(j) is Wait,
        },
{
    lemma_fits(run, j);
    assert(j > 0);
    lemma_fits(run, j - 1);
    assert(answers(run.action(j - 1), run.seen(j - 1)));
}

/// A timer that runs out is no error: a bounded wait that ends that way counts
/// as one that succeeded.
pub proof fn law_expiry_is_success(run: ParkRun, i: int, e: OsError)
    requires
        run.valid(),
        0 <= i < run.moments.len(),
        run.action(i) is WaitFor,
        run.seen(i) == ParkSeen::Done(Err(e)),
        run.config.errnos.says_expired(e),
    ensures
        run.phase(i + 1) == (ParkPhase::ClosePark { outcome: Ok(()) }),
{
    assert(answers(run.action(i), run.seen(i)));
}

/// Whether exchange `i` brought the error `e`, other than a bounded wait running
/// out.
pub open spec fn fails(run: ParkRun, i: int, e: OsError) -> bool {
    ||| run.seen(i) == ParkSeen::Reaped(Err(e))
    ||| run.seen(i) == ParkSeen::Done(Err(e)) && !(run.action(i) is WaitFor
        && run.config.errnos.says_expired(e))
}

/// The first error is what the park returns, and it does nothing else but end
/// the measurement of a wait.
pub proof fn law_errors_are_returned(run: ParkRun, i: int, e: OsError)
    requires
        run.valid(),
        0 <= i < run.moments.len(),
        fails(run, i, e),
    ensures
        if blocks(run.action(i)) {
            &&& run.action(i + 1) is ClosePark
            &&& i + 1 < run.moments.len() ==> run.action(i + 2) == ParkDo::Return(Err(e))
        } else {
            run.action(i + 1) == ParkDo::Return(Err(e))
        },
{
    assert(answers(run.action(i), run.seen(i)));
    assert(run.phase(i + 1) == run.config.next(
        run.moments[i].around,
        run.phase(i),
        run.moments[i].seen,
    ));
    if i + 1 < run.moments.len() {
        assert(answers(run.action(i + 1), run.seen(i + 1)));
        assert(run.phase(i + 2) == run.config.next(
            run.moments[i + 1].around,
            run.phase(i + 1),
            run.moments[i + 1].seen,
        ));
    }
}

/// A park returns an error only if the host reported that error.
pub proof fn law_returned_errors_were_seen(run: ParkRun, j: int, e: OsError)
    requires
        run.valid(),
        0 <= j <= run.moments.len(),
        run.action(j) == ParkDo::Return(Err(e)),
    ensures
        exists|i: int| 0 <= i < j && #[trigger] fails(run, i, e),
{
    assert(j > 0);
    assert(answers(run.action(j - 1), run.seen(j - 1)));
    if run.action(j - 1) is ClosePark {
        assert(j > 1);
        assert(answers(run.action(j - 2), run.seen(j - 2)));
        assert(run.phase(j - 1) == run.config.next(
            run.moments[j - 2].around,
            run.phase(j - 2),
            run.moments[j - 2].seen,
        ));
        assert(fails(run, j - 2, e));
    } else {
        assert(fails(run, j - 1, e));
    }
}

/// Where other threads may wake this one, a park commits itself to blocking only
/// with the read of the wake-up eventfd in the ring: it was found there, or was
/// queued just before.
pub proof fn law_sleep_can_be_ended(run: ParkRun, j: int)
    requires
        run.valid(),
        run.config.features.sync,
        0 <= j <= run.moments.len(),
        run.action(j) is OpenPark,
    ensures
        j > 0,
        run.action(j - 1) == ParkDo::Push(Sqe::ReadEventfd) || run.moments[j
            - 1].around.eventfd_installed,
{
    lemma_fits(run, j);
    assert(j > 0);
    assert(answers(run.action(j - 1), run.seen(j - 1)));
}

/// What is found around a park once the ring holds the entry that a park in
/// `phase` asks to be queued.
pub open spec fn with_entry(around: Around, phase: ParkPhase) -> Around {
    match phase {
        ParkPhase::PushPoller => Around { poller_installed: true, ..around },
        ParkPhase::PushEventfd => Around { eventfd_installed: true, ..around },
        _ => around,
    }
}

impl ParkRun {
    /// Whether the ring's own entries come and go as they do on a driver: they
    /// are there once they are queued, and only reaping, which a submission may
    /// have to do as well, can find them gone.
    pub open spec fn follows_ring(self) -> bool {
        forall|k: int|
            0 <= k < self.moments.len() && !(self.action(k) is Tick || self.action(k) is Submit)
                ==> {
                let before = if k == 0 {
                    self.around
                } else {
                    self.moments[k - 1].around
                };
                let now = (#[trigger] self.moments[k]).around;
                &&& now.eventfd_installed == with_entry(before, self.phase(k)).eventfd_installed
                &&& now.poller_installed == with_entry(before, self.phase(k)).poller_installed
            }
    }
}

/// A driver's ring is such a ring: what the driver records when a park moves to
/// `phase` is the entry that this phase asks to be queued, and nothing else.
pub proof fn law_driver_records_queued_entries<D>(
    before: &IoUringDriver<D>,
    after: &IoUringDriver<D>,
    gate: &ClientGate,
    phase: ParkPhase,
)
    requires
        after.noted(before, phase),
    ensures
        after.around(gate) == with_entry(before.around(gate), phase),
{
}

/// A blocked thread can be reached: while a park waits, the ring holds the read
/// of the wake-up eventfd where other threads may wake this one, and the wait for
/// the readiness poller where there is one.
pub proof fn law_blocked_ring_can_be_reached(run: ParkRun, j: int)
    requires
        run.valid(),
        run.follows_ring(),
        0 <= j < run.moments.len(),
        blocks(run.action(j)),
    ensures
        run.config.features.sync ==> run.moments[j].around.eventfd_installed,
        run.config.features.poll_io ==> run.moments[j].around.poller_installed,
{
    lemma_entries_stay(run, j);
}

/// Which of its own entries the ring holds by phase, on the way to a wait.
spec fn entries_held(config: ParkConfig, phase: ParkPhase, around: Around) -> bool {
    match phase {
        ParkPhase::PushPoller => around.poller_installed,
        ParkPhase::PushEventfd => around.eventfd_installed && !config.lacks_poller(around),
        ParkPhase::OpenPark | ParkPhase::PushTimeout(_) | ParkPhase::Wait
        | ParkPhase::WaitFor(_) => !config.lacks_eventfd(around) && !config.lacks_poller(around),
        _ => true,
    }
}

proof fn lemma_entries_stay(run: ParkRun, j: int)
    requires
        run.valid(),
        run.follows_ring(),
        0 <= j < run.moments.len(),
    ensures
        entries_held(run.config, run.phase(j), run.moments[j].around),
    decreases j,
{
    assert(answers(run.action(j), run.seen(j)));
    let now = run.moments[j].around;
    if j > 0 {
        lemma_entries_stay(run, j - 1);
        lemma_fits(run, j - 1);
        assert(answers(run.action(j - 1), run.seen(j - 1)));
    }
}

impl ParkRun {
    /// How many entries the park asks to be queued from exchange `i` to before
    /// exchange `j`.
    pub open spec fn pushes(self, i: int, j: int) -> nat
        decreases j - i,
    {
        if j <= i {
            0
        } else {
            self.pushes(i, j - 1) + if self.action(j - 1) is Push { 1nat } else { 0nat }
        }
    }
}

/// The room a park makes is enough: from the look at the queue that asks for room
/// for `need` entries up to the wait it queues no more than `need`, so long as the
/// ring keeps the entries that it held when `need` was worked out.
pub proof fn law_reserved_room_is_enough(run: ParkRun, origin: Around, i: int, j: int)
    requires
        run.valid(),
        0 <= i < j <= run.moments.len(),
        run.phase(i) == (ParkPhase::Reserve { need: run.config.entries_needed(origin) as usize }),
        blocks(run.action(j)),
        forall|k: int|
            i <= k < j ==> (origin.eventfd_installed ==> (#[trigger] run.moments[k]).around.eventfd_installed)
                && (origin.poller_installed ==> run.moments[k].around.poller_installed),
    ensures
        run.pushes(i, j) <= run.config.entries_needed(origin),
{
    lemma_pushes(run, origin, i, j);
}

/// How many entries a park may still ask to be queued before it waits, where
/// the ring held at least what it held in `origin`.
spec fn pushes_left(config: ParkConfig, origin: Around, phase: ParkPhase) -> nat {
    let timeout: nat = if config.timeout is Some { 1 } else { 0 };
    let eventfd: nat = if config.lacks_eventfd(origin) { 1 } else { 0 };
    match phase {
        ParkPhase::ReserveFlush => config.entries_needed(origin),
        ParkPhase::PushPoller => 1 + eventfd + timeout,
        ParkPhase::PushEventfd => 1 + timeout,
        ParkPhase::OpenPark => timeout,
        ParkPhase::PushTimeout(_) => 1,
        _ => 0,
    }
}

proof fn lemma_pushes(run: ParkRun, origin: Around, i: int, k: int)
    requires
        run.valid(),
        0 <= i < k <= run.moments.len(),
        run.phase(i) == (ParkPhase::Reserve { need: run.config.entries_needed(origin) as usize }),
        forall|m: int|
            i <= m < k ==> (origin.eventfd_installed ==> (#[trigger] run.moments[m]).around.eventfd_installed)
                && (origin.poller_installed ==> run.moments[m].around.poller_installed),
    ensures
        run.pushes(i, k) + pushes_left(run.config, origin, run.phase(k))
            <= run.config.entries_needed(origin),
        match run.phase(k) {
            ParkPhase::ReserveFlush | ParkPhase::PushPoller | ParkPhase::PushEventfd
            | ParkPhase::OpenPark
            | ParkPhase::PushTimeout(_) | ParkPhase::Wait | ParkPhase::WaitFor(_)
            | ParkPhase::ClosePark { .. } | ParkPhase::Awaken | ParkPhase::LastTick
            | ParkPhase::Over(_) => true,
            _ => false,
        },
    decreases k,
{
    assert(answers(run.action(k - 1), run.seen(k - 1)));
    if k - 1 > i {
        lemma_pushes(run, origin, i, k - 1);
        lemma_fits(run, k - 1);
    } else {
        assert(run.pushes(i, i) == 0);
    }
    assert(origin.eventfd_installed ==> run.moments[k - 1].around.eventfd_installed);
}

/// The poll-reactor spins only after a reap that brought nothing, with a budget
/// to spend, and, where spinning is gated, with a client request in flight.
pub proof fn law_spin_is_gated(run: ParkRun, j: int)
    requires
        run.valid(),
        run.config.poll_reactor,
        0 <= j <= run.moments.len(),
        run.action(j) is StartClock,
    ensures
        j > 0,
        run.seen(j - 1) == ParkSeen::Reaped(Ok(0)),
        run.config.budget_us() > 0,
        run.config.poll_reactor_client_gated ==> run.moments[j - 1].around.client_in_flight,
{
    lemma_fits(run, j);
    assert(j > 0);
    lemma_fits(run, j - 1);
    assert(answers(run.action(j - 1), run.seen(j - 1)));
}

/// Whether the two differ at most in whether a client request is in flight.
pub open spec fn same_ring(one: Around, other: Around) -> bool {
    &&& one.eventfd_installed == other.eventfd_installed
    &&& one.poller_installed == other.poller_installed
}

/// Whether the two parks differ at most in whether spinning is gated, and in
/// which client requests are in flight.
pub open spec fn differ_in_gating(one: ParkRun, other: ParkRun) -> bool {
    &&& other.config == (ParkConfig {
        poll_reactor_client_gated: other.config.poll_reactor_client_gated,
        ..one.config
    })
    &&& same_ring(one.around, other.around)
    &&& one.moments.len() == other.moments.len()
    &&& forall|k: int|
        0 <= k < one.moments.len() ==> (#[trigger] one.moments[k]).seen == other.moments[k].seen
            && same_ring(one.moments[k].around, other.moments[k].around)
}

/// Client-gating has no effect unless the reactor is the poll-reactor.
pub proof fn law_gating_needs_the_poll_reactor(one: ParkRun, other: ParkRun, k: int)
    requires
        one.valid(),
        !one.config.poll_reactor,
        differ_in_gating(one, other),
        0 <= k <= one.moments.len(),
    ensures
        one.phase(k) == other.phase(k),
    decreases k,
{
    if k > 0 {
        law_gating_needs_the_poll_reactor(one, other, k - 1);
        lemma_fits(one, k - 1);
        assert(answers(one.action(k - 1), one.seen(k - 1)));
        assert(one.moments[k - 1].seen == other.moments[k - 1].seen);
    }
}

/// Client-gating has no effect while a client request is in flight.
pub proof fn law_gating_needs_idle_clients(one: ParkRun, other: ParkRun, k: int)
    requires
        one.valid(),
        differ_in_gating(one, other),
        0 <= k <= one.moments.len(),
        forall|m: int|
            0 <= m < k ==> (#[trigger] one.moments[m]).around.client_in_flight
                && other.moments[m].around.client_in_flight,
    ensures
        one.phase(k) == other.phase(k),
    decreases k,
{
    if k > 0 {
        law_gating_needs_idle_clients(one, other, k - 1);
        assert(answers(one.action(k - 1), one.seen(k - 1)));
        assert(one.moments[k - 1].seen == other.moments[k - 1].seen);
    }
}

/// The poll-reactor does not enter the kernel to submit nothing: it submits only
/// when it has just found entries queued, when it has just found the queue too
/// full for the entries it needs, or when a waker kept it from sleeping.
pub proof fn law_poll_reactor_submits_with_cause(run: ParkRun, j: int)
    requires
        run.valid(),
        run.config.poll_reactor,
        0 <= j <= run.moments.len(),
        run.action(j) is Submit,
    ensures
        j > 0,
        match run.seen(j - 1) {
            ParkSeen::Level(level) => level.len > 0 || exists|need: nat|
                0 < need <= 3 && #[trigger] level.lacks(need),
            _ => run.action(j - 1) == ParkDo::SetAwake(true) && j > 1 && run.seen(j - 2)
                == ParkSeen::Waker(true),
        },
{
    lemma_fits(run, j);
    assert(j > 0);
    lemma_fits(run, j - 1);
    assert(answers(run.action(j - 1), run.seen(j - 1)));
    if let ParkSeen::Level(level) = run.seen(j - 1) {
        if let ParkPhase::Reserve { need } = run.phase(j - 1) {
            assert(level.lacks(need as nat));
        }
    } else {
        assert(run.phase(j - 1) is PollStir);
        assert(j > 1);
        assert(answers(run.action(j - 2), run.seen(j - 2)));
        assert(run.phase(j - 1) == run.config.next(
            run.moments[j - 2].around,
            run.phase(j - 2),
            run.moments[j - 2].seen,
        ));
    }
}

/// Whether an exchange sends a park back to an earlier point: another waker to
/// drain, or another round of spinning within the budget.
pub open spec fn goes_round(config: ParkConfig, seen: ParkSeen) -> bool {
    match seen {
        ParkSeen::Waker(waker) => waker,
        ParkSeen::Elapsed(nanos) => !config.budget_spent(nanos),
        _ => false,
    }
}

impl ParkRun {
    /// How many of the first `k` exchanges sent the park back.
    pub open spec fn rounds(self, k: int) -> nat
        decreases k,
    {
        if k <= 0 {
            0
        } else {
            self.rounds(k - 1) + if goes_round(self.config, self.seen(k - 1)) { 1nat } else { 0nat }
        }
    }
}

/// How far a phase is from the end of the park.
spec fn distance(phase: ParkPhase) -> nat {
    match phase {
        ParkPhase::Drain { .. } => 31,
        ParkPhase::PollDrain { .. } | ParkPhase::Doze => 30,
        ParkPhase::PollLevel | ParkPhase::DrainAgain { .. } => 29,
        ParkPhase::PollSubmit => 28,
        ParkPhase::PollTick | ParkPhase::SpinFlush => 27,
        ParkPhase::SpinStart | ParkPhase::SpinPause => 26,
        ParkPhase::SpinLevel => 25,
        ParkPhase::SpinSubmit => 24,
        ParkPhase::SpinTick => 23,
        ParkPhase::SpinClock => 22,
        ParkPhase::PollDoze => 21,
        ParkPhase::PollRecheck => 20,
        ParkPhase::Reserve { .. } => 19,
        ParkPhase::ReserveFlush => 18,
        ParkPhase::PushPoller => 17,
        ParkPhase::PushEventfd => 16,
        ParkPhase::OpenPark => 15,
        ParkPhase::PushTimeout(_) => 14,
        ParkPhase::Wait | ParkPhase::WaitFor(_) => 13,
        ParkPhase::ClosePark { .. } => 12,
        ParkPhase::SubmitOnly | ParkPhase::PollStir => 4,
        ParkPhase::PollWokenLevel | ParkPhase::Awaken => 3,
        ParkPhase::LastSubmit => 2,
        ParkPhase::LastTick | ParkPhase::AwakenAndReturn => 1,
        ParkPhase::Over(_) => 0,
    }
}

/// A park comes to an end: the number of its exchanges is bounded by how often
/// it found another waker or went on spinning within its budget.
pub proof fn law_park_ends(run: ParkRun)
    requires
        run.valid(),
    ensures
        run.moments.len() <= 31 + 32 * run.rounds(run.moments.len() as int),
{
    lemma_distance(run, run.moments.len() as int);
}

proof fn lemma_distance(run: ParkRun, k: int)
    requires
        run.valid(),
        0 <= k <= run.moments.len(),
    ensures
        k + distance(run.phase(k)) <= 31 + 32 * run.rounds(k),
    decreases k,
{
    if k > 0 {
        lemma_distance(run, k - 1);
        assert(answers(run.action(k - 1), run.seen(k - 1)));
    }
}

} // verus!
