//! How the reactor parks.
//!
//! A park alternates between work that only the host can do (a system call, a
//! look at the clock or at a channel) and decisions. [`Park`] is the decisions: it
//! always names the one action it waits for, and moves on when it is told what
//! that action brought.
//!
//! The blocking reactor drains foreign wakers, optionally spins on the completion
//! queue for a while, and then sleeps in the kernel. The poll-reactor submits and
//! reaps without blocking first; it returns at once when that made progress, spins
//! for a bounded budget when it did not, and sleeps only once the budget is spent.

use vstd::prelude::*;

use crate::client_gate::{gate_shut, is_gate_shut};
use crate::uring::entry::{Features, OsError, Sqe, SqLevel, Timespec};
use crate::uring::errno::Errnos;

verus! {

/// The spin budget of the poll-reactor, in microseconds, where none is set.
///
/// Long enough to bridge the gaps between completion batches under load, short
/// enough to cost nothing at idle.
pub const DEFAULT_POLL_REACTOR_SPIN_US: u64 = 50;

/// Everything a park depends on that does not change while it runs.
#[derive(Clone, Copy, Debug, PartialEq, Eq)]
pub struct ParkConfig {
    pub features: Features,
    pub errnos: Errnos,
    /// Whether a wait can carry its own timeout.
    pub ext_arg: bool,
    /// How long to spin on the completion queue before sleeping, in microseconds.
    pub poll_spin_us: Option<u64>,
    /// Whether this is the poll-reactor.
    pub poll_reactor: bool,
    /// Whether the poll-reactor spins only while a client request is in flight.
    pub poll_reactor_client_gated: bool,
    /// How long to sleep at most.
    pub timeout: Option<Timespec>,
}

/// What a park depends on that may change while it runs.
#[derive(Clone, Copy, Debug, PartialEq, Eq)]
pub struct Around {
    /// Whether the ring holds the read of the wake-up eventfd.
    pub eventfd_installed: bool,
    /// Whether the ring holds the wait for the readiness poller.
    pub poller_installed: bool,
    /// Whether a client request is in flight on this shard.
    pub client_in_flight: bool,
}

/// The one action a park waits for.
#[derive(Clone, Copy, Debug, PartialEq, Eq)]
pub enum ParkDo {
    /// Take one foreign waker out of the channel and wake it, if there is one.
    RecvWaker,
    /// Publish to other threads whether this one is awake.
    SetAwake(bool),
    /// Look at the fill level of the submission queue.
    ReadLevel,
    /// Run the submission loop.
    Submit,
    /// Submit the queued entries, once.
    SubmitOnce,
    /// Reap the completion queue.
    Tick,
    /// Note the time at which spinning starts.
    StartClock,
    /// Look at the time spent spinning.
    ReadClock,
    /// Hint to the processor that this is a spin loop.
    Pause,
    /// Queue this entry; if the queue does not take it, go on all the same.
    Push(Sqe),
    /// Start measuring parked time.
    OpenPark,
    /// Submit the queued entries and wait for a completion.
    Wait,
    /// Submit the queued entries and wait for a completion, but no longer than
    /// this.
    WaitFor(Timespec),
    /// Stop measuring parked time.
    ClosePark,
    /// The park is over.
    Return(Result<(), OsError>),
}

/// What an action brought.
#[derive(Clone, Copy, Debug, PartialEq, Eq)]
pub enum ParkSeen {
    /// Whether there was a foreign waker.
    Waker(bool),
    /// The fill level of the submission queue.
    Level(SqLevel),
    /// The outcome of a submission or a wait.
    Done(Result<(), OsError>),
    /// How many completions were reaped.
    Reaped(Result<usize, OsError>),
    /// The nanoseconds spent spinning.
    Elapsed(u128),
    /// The action was carried out.
    Ack,
}

/// Where a park stands: what it waits for, and what that wait is for.
#[derive(Clone, Copy, Debug, PartialEq, Eq)]
pub enum ParkPhase {
    /// Poll-reactor: draining foreign wakers. `woken` if there were any.
    PollDrain { woken: bool },
    /// Poll-reactor: there were foreign wakers; are entries queued?
    PollWokenLevel,
    /// Poll-reactor: are entries queued?
    PollLevel,
    /// Poll-reactor: submitting the queued entries.
    PollSubmit,
    /// Poll-reactor: reaping for the first time.
    PollTick,
    /// Blocking reactor: draining foreign wakers. `woken` if there were any.
    Drain { woken: bool },
    /// Blocking reactor: about to sleep, telling the other threads.
    Doze,
    /// Blocking reactor: draining once more, now that the others know.
    DrainAgain { woken: bool },
    /// Blocking reactor: woken, so only submitting.
    SubmitOnly,
    /// Blocking reactor: submitting before spinning.
    SpinFlush,
    /// Starting the spin clock.
    SpinStart,
    /// Poll-reactor, spinning: are entries queued?
    SpinLevel,
    /// Poll-reactor, spinning: submitting the queued entries.
    SpinSubmit,
    /// Spinning: reaping.
    SpinTick,
    /// Spinning: nothing was reaped; is the budget spent?
    SpinClock,
    /// Spinning: between two rounds.
    SpinPause,
    /// Poll-reactor: about to sleep, telling the other threads.
    PollDoze,
    /// Poll-reactor: looking for a waker once more, now that the others know.
    PollRecheck,
    /// Poll-reactor: there was one, so not sleeping after all.
    PollStir,
    /// Making room for `need` entries: how full is the queue?
    Reserve { need: usize },
    /// Making room: flushing the queue.
    ReserveFlush,
    /// Queueing the wait for the readiness poller.
    PushPoller,
    /// Queueing the read of the wake-up eventfd.
    PushEventfd,
    /// About to block: starting the measurement.
    OpenPark,
    /// Queueing the timeout of a wait that cannot carry its own.
    PushTimeout(Timespec),
    /// Blocked.
    Wait,
    /// Blocked, for a bounded time.
    WaitFor(Timespec),
    /// No longer blocked: ending the measurement.
    ClosePark { outcome: Result<(), OsError> },
    /// Telling the other threads that this one is awake.
    Awaken,
    /// Telling the other threads so, with nothing left to do.
    AwakenAndReturn,
    /// Submitting, with only a reap to follow.
    LastSubmit,
    /// Reaping for the last time.
    LastTick,
    /// The park is over.
    Over(Result<(), OsError>),
}

impl ParkPhase {
    /// The one action a park in this phase waits for.
    pub open spec fn action(self) -> ParkDo {
        match self {
            ParkPhase::PollDrain { .. } | ParkPhase::Drain { .. } | ParkPhase::DrainAgain { .. }
            | ParkPhase::PollRecheck => ParkDo::RecvWaker,
            ParkPhase::PollWokenLevel | ParkPhase::PollLevel | ParkPhase::SpinLevel
            | ParkPhase::Reserve { .. } => ParkDo::ReadLevel,
            ParkPhase::PollSubmit | ParkPhase::SpinFlush | ParkPhase::SpinSubmit
            | ParkPhase::ReserveFlush | ParkPhase::LastSubmit => ParkDo::Submit,
            ParkPhase::SubmitOnly => ParkDo::SubmitOnce,
            ParkPhase::PollTick | ParkPhase::SpinTick | ParkPhase::LastTick => ParkDo::Tick,
            ParkPhase::Doze | ParkPhase::PollDoze => ParkDo::SetAwake(false),
            ParkPhase::PollStir | ParkPhase::Awaken
            | ParkPhase::AwakenAndReturn => ParkDo::SetAwake(true),
            ParkPhase::SpinStart => ParkDo::StartClock,
            ParkPhase::SpinClock => ParkDo::ReadClock,
            ParkPhase::SpinPause => ParkDo::Pause,
            ParkPhase::PushPoller => ParkDo::Push(Sqe::PollPoller),
            ParkPhase::PushEventfd => ParkDo::Push(Sqe::ReadEventfd),
            ParkPhase::OpenPark => ParkDo::OpenPark,
            ParkPhase::PushTimeout(timeout) => ParkDo::Push(Sqe::Timeout(timeout)),
            ParkPhase::Wait => ParkDo::Wait,
            ParkPhase::WaitFor(timeout) => ParkDo::WaitFor(timeout),
            ParkPhase::ClosePark { .. } => ParkDo::ClosePark,
            ParkPhase::Over(outcome) => ParkDo::Return(outcome),
        }
    }
}

/// Whether `seen` is a possible answer to `action`.
pub open spec fn answers(action: ParkDo, seen: ParkSeen) -> bool {
    match action {
        ParkDo::RecvWaker => seen is Waker,
        ParkDo::ReadLevel => seen is Level,
        ParkDo::Submit | ParkDo::SubmitOnce | ParkDo::Wait | ParkDo::WaitFor(_) => seen is Done,
        ParkDo::Tick => seen is Reaped,
        ParkDo::ReadClock => seen is Elapsed,
        ParkDo::SetAwake(_) | ParkDo::StartClock | ParkDo::Pause | ParkDo::Push(_)
        | ParkDo::OpenPark | ParkDo::ClosePark => seen is Ack,
        ParkDo::Return(_) => false,
    }
}

impl ParkConfig {
    /// The spin budget in microseconds.
    pub open spec fn budget_us(self) -> u64 {
        match self.poll_spin_us {
            Some(us) => us,
            None => DEFAULT_POLL_REACTOR_SPIN_US,
        }
    }

    /// Whether the time spent spinning has used the budget up.
    pub open spec fn budget_spent(self, elapsed_nanos: u128) -> bool {
        elapsed_nanos >= self.budget_us() * 1000
    }

    /// How many entries may have to be queued before blocking.
    pub open spec fn entries_needed(self, around: Around) -> nat {
        let eventfd: nat = if self.lacks_eventfd(around) { 1 } else { 0 };
        let poller: nat = if self.lacks_poller(around) { 1 } else { 0 };
        let timeout: nat = if self.timeout is Some { 1 } else { 0 };
        eventfd + poller + timeout
    }

    pub open spec fn lacks_eventfd(self, around: Around) -> bool {
        self.features.sync && !around.eventfd_installed
    }

    pub open spec fn lacks_poller(self, around: Around) -> bool {
        self.features.poll_io && !around.poller_installed
    }

    /// Whether the poll-reactor spins after a first reap that brought nothing.
    pub open spec fn spins(self, around: Around) -> bool {
        self.budget_us() > 0 && !gate_shut(self.poll_reactor_client_gated, around.client_in_flight)
    }

    /// A park that made progress: it tells the other threads and is over.
    pub open spec fn return_awake(self) -> ParkPhase {
        if self.features.sync {
            ParkPhase::AwakenAndReturn
        } else {
            ParkPhase::Over(Ok(()))
        }
    }

    /// A park that has submitted what there was: it tells the other threads and
    /// reaps.
    pub open spec fn awaken_and_tick(self) -> ParkPhase {
        if self.features.sync {
            ParkPhase::Awaken
        } else {
            ParkPhase::LastTick
        }
    }

    /// A park that goes to sleep: it makes room for the entries it has to queue.
    pub open spec fn block(self, around: Around) -> ParkPhase {
        if self.entries_needed(around) > 0 {
            ParkPhase::Reserve { need: self.entries_needed(around) as usize }
        } else {
            ParkPhase::OpenPark
        }
    }

    /// There is room: it queues what the ring lacks.
    pub open spec fn install(self, around: Around) -> ParkPhase {
        if self.lacks_poller(around) {
            ParkPhase::PushPoller
        } else {
            self.install_eventfd(around)
        }
    }

    pub open spec fn install_eventfd(self, around: Around) -> ParkPhase {
        if self.lacks_eventfd(around) {
            ParkPhase::PushEventfd
        } else {
            ParkPhase::OpenPark
        }
    }

    /// The kind of wait: bounded by the call itself, by an entry, or unbounded.
    pub open spec fn wait(self) -> ParkPhase {
        match self.timeout {
            Some(timeout) => if self.ext_arg {
                ParkPhase::WaitFor(timeout)
            } else {
                ParkPhase::PushTimeout(timeout)
            },
            None => ParkPhase::Wait,
        }
    }

    /// Nothing is ready and no spinning is left to do.
    pub open spec fn after_spin(self, around: Around) -> ParkPhase {
        if self.poll_reactor && self.features.sync {
            ParkPhase::PollDoze
        } else {
            self.block(around)
        }
    }

    /// One round of spinning.
    pub open spec fn spin_round(self) -> ParkPhase {
        if self.poll_reactor {
            ParkPhase::SpinLevel
        } else {
            ParkPhase::SpinTick
        }
    }

    /// The blocking reactor with nobody having woken it.
    pub open spec fn need_wait(self, around: Around) -> ParkPhase {
        if self.poll_spin_us is Some {
            ParkPhase::SpinFlush
        } else {
            self.block(around)
        }
    }

    /// Where a park begins.
    pub open spec fn first(self, around: Around) -> ParkPhase {
        if self.poll_reactor {
            if self.features.sync {
                ParkPhase::PollDrain { woken: false }
            } else {
                ParkPhase::PollLevel
            }
        } else if self.features.sync {
            ParkPhase::Drain { woken: false }
        } else {
            self.need_wait(around)
        }
    }

    /// Where a park goes on seeing whether there was a foreign waker.
    pub open spec fn on_waker(self, around: Around, phase: ParkPhase, waker: bool) -> ParkPhase {
        match phase {
            ParkPhase::PollDrain { woken } => if waker {
                ParkPhase::PollDrain { woken: true }
            } else if woken {
                ParkPhase::PollWokenLevel
            } else {
                ParkPhase::PollLevel
            },
            ParkPhase::Drain { woken } => if waker {
                ParkPhase::Drain { woken: true }
            } else if woken {
                ParkPhase::DrainAgain { woken: true }
            } else {
                ParkPhase::Doze
            },
            ParkPhase::DrainAgain { woken } => if waker {
                ParkPhase::DrainAgain { woken: true }
            } else if woken {
                ParkPhase::SubmitOnly
            } else {
                self.need_wait(around)
            },
            ParkPhase::PollRecheck => if waker {
                ParkPhase::PollStir
            } else {
                self.block(around)
            },
            _ => phase,
        }
    }

    /// Where a park goes on seeing the fill level of the submission queue.
    pub open spec fn on_level(self, around: Around, phase: ParkPhase, level: SqLevel) -> ParkPhase {
        let queued = level.len > 0;
        match phase {
            ParkPhase::PollWokenLevel => if queued {
                ParkPhase::LastSubmit
            } else {
                ParkPhase::LastTick
            },
            ParkPhase::PollLevel => if queued {
                ParkPhase::PollSubmit
            } else {
                ParkPhase::PollTick
            },
            ParkPhase::SpinLevel => if queued {
                ParkPhase::SpinSubmit
            } else {
                ParkPhase::SpinTick
            },
            ParkPhase::Reserve { need } => if level.lacks(need as nat) {
                ParkPhase::ReserveFlush
            } else {
                self.install(around)
            },
            _ => phase,
        }
    }

    /// Where a park goes once a submission or a wait has come back.
    pub open spec fn on_done(
        self,
        around: Around,
        phase: ParkPhase,
        done: Result<(), OsError>,
    ) -> ParkPhase {
        match phase {
            ParkPhase::Wait => ParkPhase::ClosePark { outcome: done },
            ParkPhase::WaitFor(_) => ParkPhase::ClosePark {
                outcome: match done {
                    Err(e) => if self.errnos.says_expired(e) {
                        Ok(())
                    } else {
                        Err(e)
                    },
                    Ok(_) => Ok(()),
                },
            },
            _ => if done is Err {
                ParkPhase::Over(done)
            } else {
                match phase {
                    ParkPhase::PollSubmit => ParkPhase::PollTick,
                    ParkPhase::SpinFlush => ParkPhase::SpinStart,
                    ParkPhase::SpinSubmit => ParkPhase::SpinTick,
                    ParkPhase::ReserveFlush => self.install(around),
                    ParkPhase::SubmitOnly => self.awaken_and_tick(),
                    ParkPhase::LastSubmit => ParkPhase::LastTick,
                    _ => phase,
                }
            },
        }
    }

    /// Where a park goes once completions were reaped.
    pub open spec fn on_reaped(
        self,
        around: Around,
        phase: ParkPhase,
        reaped: Result<usize, OsError>,
    ) -> ParkPhase {
        match reaped {
            Err(e) => ParkPhase::Over(Err(e)),
            Ok(n) => match phase {
                ParkPhase::LastTick => ParkPhase::Over(Ok(())),
                ParkPhase::PollTick => if n > 0 {
                    self.return_awake()
                } else if self.spins(around) {
                    ParkPhase::SpinStart
                } else {
                    self.after_spin(around)
                },
                ParkPhase::SpinTick => if n > 0 {
                    self.return_awake()
                } else {
                    ParkPhase::SpinClock
                },
                _ => phase,
            },
        }
    }

    /// Where a park goes once an action that brings nothing was carried out.
    pub open spec fn on_ack(self, around: Around, phase: ParkPhase) -> ParkPhase {
        match phase {
            ParkPhase::Doze => ParkPhase::DrainAgain { woken: false },
            ParkPhase::PollDoze => ParkPhase::PollRecheck,
            ParkPhase::PollStir => ParkPhase::LastSubmit,
            ParkPhase::Awaken => ParkPhase::LastTick,
            ParkPhase::AwakenAndReturn => ParkPhase::Over(Ok(())),
            ParkPhase::SpinStart | ParkPhase::SpinPause => self.spin_round(),
            ParkPhase::PushPoller => self.install_eventfd(around),
            ParkPhase::PushEventfd => ParkPhase::OpenPark,
            ParkPhase::OpenPark => self.wait(),
            ParkPhase::PushTimeout(_) => ParkPhase::Wait,
            ParkPhase::ClosePark { outcome } => if outcome is Err {
                ParkPhase::Over(outcome)
            } else {
                self.awaken_and_tick()
            },
            _ => phase,
        }
    }

    /// Where a park goes from `phase` on seeing `seen`.
    pub open spec fn next(self, around: Around, phase: ParkPhase, seen: ParkSeen) -> ParkPhase {
        match seen {
            ParkSeen::Waker(waker) => self.on_waker(around, phase, waker),
            ParkSeen::Level(level) => self.on_level(around, phase, level),
            ParkSeen::Done(done) => self.on_done(around, phase, done),
            ParkSeen::Reaped(reaped) => self.on_reaped(around, phase, reaped),
            ParkSeen::Elapsed(nanos) => if self.budget_spent(nanos) {
                self.after_spin(around)
            } else {
                ParkPhase::SpinPause
            },
            ParkSeen::Ack => self.on_ack(around, phase),
        }
    }
}

/// A running park.
#[derive(Debug)]
pub struct Park {
    config: ParkConfig,
    phase: ParkPhase,
}

impl Park {
    pub closed spec fn spec_config(&self) -> ParkConfig {
        self.config
    }

    pub closed spec fn spec_phase(&self) -> ParkPhase {
        self.phase
    }

    /// A park that has just begun.
    pub fn new(config: ParkConfig, around: Around) -> (park: Park)
        ensures
            park.spec_config() == config,
            park.spec_phase() == config.first(around),
    {
        let phase = if config.poll_reactor {
            if config.features.sync {
                ParkPhase::PollDrain { woken: false }
            } else {
                ParkPhase::PollLevel
            }
        } else if config.features.sync {
            ParkPhase::Drain { woken: false }
        } else {
            need_wait(&config, &around)
        };
        Park { config, phase }
    }

    /// The part of a park that only submits and reaps.
    pub fn submitting(config: ParkConfig) -> (park: Park)
        ensures
            park.spec_config() == config,
            park.spec_phase() == ParkPhase::LastSubmit,
    {
        Park { config, phase: ParkPhase::LastSubmit }
    }

    /// The one action this park waits for.
    pub fn action(&self) -> (action: ParkDo)
        ensures
            action == self.spec_phase().action(),
    {
        match self.phase {
            ParkPhase::PollDrain { .. } | ParkPhase::Drain { .. } | ParkPhase::DrainAgain { .. }
            | ParkPhase::PollRecheck => ParkDo::RecvWaker,
            ParkPhase::PollWokenLevel | ParkPhase::PollLevel | ParkPhase::SpinLevel
            | ParkPhase::Reserve { .. } => ParkDo::ReadLevel,
            ParkPhase::PollSubmit | ParkPhase::SpinFlush | ParkPhase::SpinSubmit
            | ParkPhase::ReserveFlush | ParkPhase::LastSubmit => ParkDo::Submit,
            ParkPhase::SubmitOnly => ParkDo::SubmitOnce,
            ParkPhase::PollTick | ParkPhase::SpinTick | ParkPhase::LastTick => ParkDo::Tick,
            ParkPhase::Doze | ParkPhase::PollDoze => ParkDo::SetAwake(false),
            ParkPhase::PollStir | ParkPhase::Awaken
            | ParkPhase::AwakenAndReturn => ParkDo::SetAwake(true),
            ParkPhase::SpinStart => ParkDo::StartClock,
            ParkPhase::SpinClock => ParkDo::ReadClock,
            ParkPhase::SpinPause => ParkDo::Pause,
            ParkPhase::PushPoller => ParkDo::Push(Sqe::PollPoller),
            ParkPhase::PushEventfd => ParkDo::Push(Sqe::ReadEventfd),
            ParkPhase::OpenPark => ParkDo::OpenPark,
            ParkPhase::PushTimeout(timeout) => ParkDo::Push(Sqe::Timeout(timeout)),
            ParkPhase::Wait => ParkDo::Wait,
            ParkPhase::WaitFor(timeout) => ParkDo::WaitFor(timeout),
            ParkPhase::ClosePark { .. } => ParkDo::ClosePark,
            ParkPhase::Over(outcome) => ParkDo::Return(outcome),
        }
    }

    /// Tells the park what its action brought, and gives the next action.
    pub fn advance(&mut self, around: Around, seen: ParkSeen) -> (action: ParkDo)
        requires
            answers(old(self).spec_phase().action(), seen),
        ensures
            final(self).spec_config() == old(self).spec_config(),
            final(self).spec_phase() == old(self).spec_config().next(
                around,
                old(self).spec_phase(),
                seen,
            ),
            action == final(self).spec_phase().action(),
    {
        let config: ParkConfig = self.config;
        self.phase = match seen {
            ParkSeen::Waker(waker) => on_waker(&config, &around, self.phase, waker),
            ParkSeen::Level(level) => on_level(&config, &around, self.phase, &level),
            ParkSeen::Done(done) => on_done(&config, &around, self.phase, done),
            ParkSeen::Reaped(reaped) => on_reaped(&config, &around, self.phase, reaped),
            ParkSeen::Elapsed(nanos) => if nanos >= (budget_us(&config) as u128) * 1000 {
                after_spin(&config, &around)
            } else {
                ParkPhase::SpinPause
            },
            ParkSeen::Ack => on_ack(&config, &around, self.phase),
        };
        self.action()
    }
}

fn budget_us(config: &ParkConfig) -> (us: u64)
    ensures
        us == config.budget_us(),
{
    match config.poll_spin_us {
        Some(us) => us,
        None => DEFAULT_POLL_REACTOR_SPIN_US,
    }
}

fn return_awake(config: &ParkConfig) -> (phase: ParkPhase)
    ensures
        phase == config.return_awake(),
{
    if config.features.sync {
        ParkPhase::AwakenAndReturn
    } else {
        ParkPhase::Over(Ok(()))
    }
}

fn awaken_and_tick(config: &ParkConfig) -> (phase: ParkPhase)
    ensures
        phase == config.awaken_and_tick(),
{
    if config.features.sync {
        ParkPhase::Awaken
    } else {
        ParkPhase::LastTick
    }
}

fn block(config: &ParkConfig, around: &Around) -> (phase: ParkPhase)
    ensures
        phase == config.block(*around),
{
    let mut need: usize = 0;
    if config.features.sync && !around.eventfd_installed {
        need = need + 1;
    }
    if config.features.poll_io && !around.poller_installed {
        need = need + 1;
    }
    if config.timeout.is_some() {
        need = need + 1;
    }
    if need > 0 {
        ParkPhase::Reserve { need }
    } else {
        ParkPhase::OpenPark
    }
}

fn install(config: &ParkConfig, around: &Around) -> (phase: ParkPhase)
    ensures
        phase == config.install(*around),
{
    if config.features.poll_io && !around.poller_installed {
        ParkPhase::PushPoller
    } else {
        install_eventfd(config, around)
    }
}

fn install_eventfd(config: &ParkConfig, around: &Around) -> (phase: ParkPhase)
    ensures
        phase == config.install_eventfd(*around),
{
    if config.features.sync && !around.eventfd_installed {
        ParkPhase::PushEventfd
    } else {
        ParkPhase::OpenPark
    }
}

fn wait(config: &ParkConfig) -> (phase: ParkPhase)
    ensures
        phase == config.wait(),
{
    match config.timeout {
        Some(timeout) => if config.ext_arg {
            ParkPhase::WaitFor(timeout)
        } else {
            ParkPhase::PushTimeout(timeout)
        },
        None => ParkPhase::Wait,
    }
}

fn after_spin(config: &ParkConfig, around: &Around) -> (phase: ParkPhase)
    ensures
        phase == config.after_spin(*around),
{
    if config.poll_reactor && config.features.sync {
        ParkPhase::PollDoze
    } else {
        block(config, around)
    }
}

fn need_wait(config: &ParkConfig, around: &Around) -> (phase: ParkPhase)
    ensures
        phase == config.need_wait(*around),
{
    if config.poll_spin_us.is_some() {
        ParkPhase::SpinFlush
    } else {
        block(config, around)
    }
}

/// Whether the submission queue has to be flushed to make room for `need`
/// entries.
pub fn flush_space(level: &SqLevel, need: usize) -> (flush: bool)
    ensures
        flush == (level.len + need > level.capacity),
{
    level.len > level.capacity || level.capacity - level.len < need
}

fn on_waker(config: &ParkConfig, around: &Around, phase: ParkPhase, waker: bool) -> (next:
    ParkPhase)
    ensures
        next == config.on_waker(*around, phase, waker),
{
    match phase {
        ParkPhase::PollDrain { woken } => if waker {
            ParkPhase::PollDrain { woken: true }
        } else if woken {
            ParkPhase::PollWokenLevel
        } else {
            ParkPhase::PollLevel
        },
        ParkPhase::Drain { woken } => if waker {
            ParkPhase::Drain { woken: true }
        } else if woken {
            ParkPhase::DrainAgain { woken: true }
        } else {
            ParkPhase::Doze
        },
        ParkPhase::DrainAgain { woken } => if waker {
            ParkPhase::DrainAgain { woken: true }
        } else if woken {
            ParkPhase::SubmitOnly
        } else {
            need_wait(config, around)
        },
        ParkPhase::PollRecheck => if waker {
            ParkPhase::PollStir
        } else {
            block(config, around)
        },
        _ => phase,
    }
}

fn on_level(config: &ParkConfig, around: &Around, phase: ParkPhase, level: &SqLevel) -> (next:
    ParkPhase)
    ensures
        next == config.on_level(*around, phase, *level),
{
    match phase {
        ParkPhase::PollWokenLevel => if level.len > 0 {
            ParkPhase::LastSubmit
        } else {
            ParkPhase::LastTick
        },
        ParkPhase::PollLevel => if level.len > 0 {
            ParkPhase::PollSubmit
        } else {
            ParkPhase::PollTick
        },
        ParkPhase::SpinLevel => if level.len > 0 {
            ParkPhase::SpinSubmit
        } else {
            ParkPhase::SpinTick
        },
        ParkPhase::Reserve { need } => if flush_space(level, need) {
            ParkPhase::ReserveFlush
        } else {
            install(config, around)
        },
        _ => phase,
    }
}

fn on_done(
    config: &ParkConfig,
    around: &Around,
    phase: ParkPhase,
    done: Result<(), OsError>,
) -> (next: ParkPhase)
    ensures
        next == config.on_done(*around, phase, done),
{
    match phase {
        ParkPhase::Wait => ParkPhase::ClosePark { outcome: done },
        ParkPhase::WaitFor(_) => ParkPhase::ClosePark {
            outcome: match done {
                Err(e) => if config.errnos.is_expired(&e) {
                    Ok(())
                } else {
                    Err(e)
                },
                Ok(_) => Ok(()),
            },
        },
        _ => {
            if done.is_err() {
                return ParkPhase::Over(done);
            }
            match phase {
                ParkPhase::PollSubmit => ParkPhase::PollTick,
                ParkPhase::SpinFlush => ParkPhase::SpinStart,
                ParkPhase::SpinSubmit => ParkPhase::SpinTick,
                ParkPhase::ReserveFlush => install(config, around),
                ParkPhase::SubmitOnly => awaken_and_tick(config),
                ParkPhase::LastSubmit => ParkPhase::LastTick,
                _ => phase,
            }
        },
    }
}

fn on_reaped(
    config: &ParkConfig,
    around: &Around,
    phase: ParkPhase,
    reaped: Result<usize, OsError>,
) -> (next: ParkPhase)
    ensures
        next == config.on_reaped(*around, phase, reaped),
{
    let n: usize = match reaped {
        Err(e) => {
            return ParkPhase::Over(Err(e));
        },
        Ok(n) => n,
    };
    match phase {
        ParkPhase::LastTick => ParkPhase::Over(Ok(())),
        ParkPhase::PollTick => {
            let shut: bool = is_gate_shut(
                config.poll_reactor_client_gated,
                around.client_in_flight,
            );
            if n > 0 {
                return_awake(config)
            } else if budget_us(config) > 0 && !shut {
                ParkPhase::SpinStart
            } else {
                after_spin(config, around)
            }
        },
        ParkPhase::SpinTick => if n > 0 {
            return_awake(config)
        } else {
            ParkPhase::SpinClock
        },
        _ => phase,
    }
}

fn on_ack(config: &ParkConfig, around: &Around, phase: ParkPhase) -> (next: ParkPhase)
    ensures
        next == config.on_ack(*around, phase),
{
    match phase {
        ParkPhase::Doze => ParkPhase::DrainAgain { woken: false },
        ParkPhase::PollDoze => ParkPhase::PollRecheck,
        ParkPhase::PollStir => ParkPhase::LastSubmit,
        ParkPhase::Awaken => ParkPhase::LastTick,
        ParkPhase::AwakenAndReturn => ParkPhase::Over(Ok(())),
        ParkPhase::SpinStart | ParkPhase::SpinPause => if config.poll_reactor {
            ParkPhase::SpinLevel
        } else {
            ParkPhase::SpinTick
        },
        ParkPhase::PushPoller => install_eventfd(config, around),
        ParkPhase::PushEventfd => ParkPhase::OpenPark,
        ParkPhase::OpenPark => wait(config),
        ParkPhase::PushTimeout(_) => ParkPhase::Wait,
        ParkPhase::ClosePark { outcome } => if outcome.is_err() {
            ParkPhase::Over(outcome)
        } else {
            awaken_and_tick(config)
        },
        _ => phase,
    }
}

} // verus!
