//! The run loop.
//!
//! [`BlockOn`] drives a shard: it drains high-priority tasks until a time budget
//! is spent, runs one background task when no high-priority task is queued, polls
//! the main future when it was woken, and turns to I/O. Like a park it names the
//! one action it waits for and moves on when it is told what that action brought.

use vstd::prelude::*;

use crate::context::{spawn, spawned, Context};
use crate::scheduler::{LocalScheduler, Task, TaskPriority, TaskQueue, Tiers};
use crate::text::{decimal, parse_u64};

verus! {

/// How long tasks run on end before the loop turns to I/O, in microseconds, where
/// no setting says otherwise.
pub const DEFAULT_PREEMPT_US: u64 = 5000;

/// The preemption budget that a setting asks for: its number where it is one, the
/// default otherwise.
pub fn preempt_us(setting: Option<&str>) -> (us: u64)
    ensures
        us == preempt_setting(
            match setting {
                Some(s) => Some(s@),
                None => None,
            },
        ),
{
    let parsed: Option<u64> = match setting {
        Some(s) => parse_u64(s),
        None => None,
    };
    match parsed {
        Some(us) => us,
        None => DEFAULT_PREEMPT_US,
    }
}

/// The preemption budget that a setting's text asks for.
pub open spec fn preempt_setting(setting: Option<Seq<char>>) -> u64 {
    match setting {
        Some(s) => match decimal(s) {
            Some(us) => if us <= u64::MAX {
                us as u64
            } else {
                DEFAULT_PREEMPT_US
            },
            None => DEFAULT_PREEMPT_US,
        },
        None => DEFAULT_PREEMPT_US,
    }
}

/// The one action the run loop waits for.
#[derive(Debug, PartialEq, Eq)]
pub enum LoopDo<T> {
    /// Note that the main future is to be polled, as if it had been woken.
    MarkMain,
    /// Note the time at which a turn starts.
    StartClock,
    /// Run a task.
    Run(T),
    /// Look at the time since the turn started.
    ReadClock,
    /// Ask, and forget, whether the main future was woken.
    AskMain,
    /// Poll the main future.
    PollMain,
    /// Submit pending I/O and reap what has completed, without waiting.
    Submit,
    /// Park until I/O completes.
    Park,
    /// Reap what I/O has completed, by a park that does not wait.
    ParkZero,
    /// The main future is ready.
    Return,
}

/// What an action brought.
#[derive(Clone, Copy, Debug, PartialEq, Eq)]
pub enum LoopSeen {
    /// The action was carried out, with whatever success.
    Ack,
    /// The nanoseconds since the turn started.
    Elapsed(u128),
    /// Whether the main future was woken.
    MainWoken(bool),
    /// Whether the main future is ready.
    MainReady(bool),
}

/// Where the run loop stands.
#[derive(Clone, Copy, Debug, PartialEq, Eq, Structural)]
pub enum LoopPhase {
    /// Beginning: nobody has woken the main future yet, but it is to be polled.
    Begin,
    /// Starting a turn.
    TurnStart,
    /// A high-priority task is running.
    HighRuns,
    /// A high-priority task has run; is the budget spent?
    HighClock,
    /// A background task is running.
    BackgroundRuns,
    /// Was the main future woken?
    AskMain,
    /// The main future is polled.
    PollMain,
    /// Turning to I/O with tasks left to run.
    Submitting,
    /// Turning to I/O with nothing else to do.
    Parking,
    /// The main future is ready.
    Done,
}

/// A step of the run loop: where it goes, what is left queued, what it asks for.
#[verifier::ext_equal]
pub struct Step<T> {
    pub phase: LoopPhase,
    pub tiers: Tiers<T>,
    pub action: LoopDo<T>,
}

/// The loop asks whether the main future was woken.
pub open spec fn ask_main<T>(tiers: Tiers<T>) -> Step<T> {
    Step { phase: LoopPhase::AskMain, tiers, action: LoopDo::AskMain }
}

/// With no high-priority task queued, one background task runs, if there is one.
/// With one queued, background tasks wait.
pub open spec fn one_background<T>(tiers: Tiers<T>) -> Step<T> {
    if tiers.high.len() == 0 && tiers.background.len() > 0 {
        Step {
            phase: LoopPhase::BackgroundRuns,
            tiers: tiers.without_first_background(),
            action: LoopDo::Run(tiers.background[0]),
        }
    } else {
        ask_main(tiers)
    }
}

/// The next high-priority task runs; with none left it is the background's turn.
pub open spec fn drain_high<T>(tiers: Tiers<T>) -> Step<T> {
    if tiers.high.len() > 0 {
        Step {
            phase: LoopPhase::HighRuns,
            tiers: tiers.without_first_high(),
            action: LoopDo::Run(tiers.high[0]),
        }
    } else {
        one_background(tiers)
    }
}

/// With the main future waiting the loop turns to I/O: in passing if tasks are
/// left to run, by parking if there is nothing else to do.
pub open spec fn turn_to_io<T>(tiers: Tiers<T>) -> Step<T> {
    if tiers.is_empty() {
        Step { phase: LoopPhase::Parking, tiers, action: LoopDo::Park }
    } else {
        Step { phase: LoopPhase::Submitting, tiers, action: LoopDo::Submit }
    }
}

/// Whether tasks have run long enough for the loop to turn to I/O.
pub open spec fn preempted(preempt_us: u64, elapsed_nanos: u128) -> bool {
    elapsed_nanos >= preempt_us * 1000
}

/// The run loop in `phase`, with `tiers` queued, on seeing `seen`.
pub open spec fn loop_next<T>(
    preempt_us: u64,
    phase: LoopPhase,
    tiers: Tiers<T>,
    seen: LoopSeen,
) -> Step<T> {
    match seen {
        LoopSeen::Ack => match phase {
            LoopPhase::TurnStart => drain_high(tiers),
            LoopPhase::HighRuns => Step {
                phase: LoopPhase::HighClock,
                tiers,
                action: LoopDo::ReadClock,
            },
            LoopPhase::BackgroundRuns => ask_main(tiers),
            _ => Step { phase: LoopPhase::TurnStart, tiers, action: LoopDo::StartClock },
        },
        LoopSeen::Elapsed(nanos) => if preempted(preempt_us, nanos) {
            one_background(tiers)
        } else {
            drain_high(tiers)
        },
        LoopSeen::MainWoken(woken) => if woken {
            Step { phase: LoopPhase::PollMain, tiers, action: LoopDo::PollMain }
        } else {
            turn_to_io(tiers)
        },
        LoopSeen::MainReady(ready) => if ready {
            Step { phase: LoopPhase::Done, tiers, action: LoopDo::Return }
        } else {
            ask_main(tiers)
        },
    }
}

/// Whether `seen` is a possible answer to what the loop asks for in `phase`.
pub open spec fn loop_answers(phase: LoopPhase, seen: LoopSeen) -> bool {
    match phase {
        LoopPhase::Begin | LoopPhase::TurnStart | LoopPhase::HighRuns
        | LoopPhase::BackgroundRuns | LoopPhase::Submitting | LoopPhase::Parking => seen is Ack,
        LoopPhase::HighClock => seen is Elapsed,
        LoopPhase::AskMain => seen is MainWoken,
        LoopPhase::PollMain => seen is MainReady,
        LoopPhase::Done => false,
    }
}

/// How to park with these tasks queued: without waiting if a high-priority task
/// is, since it would be kept from running; until I/O completes otherwise.
pub fn park_choice<T>(tasks: &TaskQueue<T>) -> (action: LoopDo<T>)
    ensures
        action == if tasks@.high.len() > 0 { LoopDo::<T>::ParkZero } else { LoopDo::<T>::Park },
{
    if !tasks.high_is_empty() {
        LoopDo::ParkZero
    } else {
        LoopDo::Park
    }
}

/// A running loop.
#[derive(Debug)]
pub struct BlockOn {
    preempt_us: u64,
    phase: LoopPhase,
}

impl BlockOn {
    pub closed spec fn spec_phase(&self) -> LoopPhase {
        self.phase
    }

    pub closed spec fn spec_preempt_us(&self) -> u64 {
        self.preempt_us
    }

    /// A loop that is about to begin: the first action it waits for is
    /// [`LoopDo::MarkMain`].
    pub fn new(preempt_us: u64) -> (run: BlockOn)
        ensures
            run.spec_phase() == LoopPhase::Begin,
            run.spec_preempt_us() == preempt_us,
    {
        BlockOn { preempt_us, phase: LoopPhase::Begin }
    }

    /// Tells the loop what its action brought, and gives the next action. A task
    /// to run is taken out of the queue.
    pub fn advance<T>(&mut self, tasks: &mut TaskQueue<T>, seen: LoopSeen) -> (action: LoopDo<T>)
        requires
            loop_answers(old(self).spec_phase(), seen),
        ensures
            final(self).spec_preempt_us() == old(self).spec_preempt_us(),
            (Step { phase: final(self).spec_phase(), tiers: final(tasks)@, action }) == loop_next(
                old(self).spec_preempt_us(),
                old(self).spec_phase(),
                old(tasks)@,
                seen,
            ),
    {
        match seen {
            LoopSeen::Ack => match self.phase {
                LoopPhase::TurnStart => self.drain_high(tasks),
                LoopPhase::HighRuns => {
                    self.phase = LoopPhase::HighClock;
                    LoopDo::ReadClock
                },
                LoopPhase::BackgroundRuns => self.ask_main(),
                _ => {
                    self.phase = LoopPhase::TurnStart;
                    LoopDo::StartClock
                },
            },
            LoopSeen::Elapsed(nanos) => if nanos >= (self.preempt_us as u128) * 1000 {
                self.one_background(tasks)
            } else {
                self.drain_high(tasks)
            },
            LoopSeen::MainWoken(woken) => if woken {
                self.phase = LoopPhase::PollMain;
                LoopDo::PollMain
            } else if tasks.is_empty() {
                self.phase = LoopPhase::Parking;
                park_choice(tasks)
            } else {
                self.phase = LoopPhase::Submitting;
                LoopDo::Submit
            },
            LoopSeen::MainReady(ready) => if ready {
                self.phase = LoopPhase::Done;
                LoopDo::Return
            } else {
                self.ask_main()
            },
        }
    }

    fn ask_main<T>(&mut self) -> (action: LoopDo<T>)
        ensures
            final(self).spec_preempt_us() == old(self).spec_preempt_us(),
            final(self).spec_phase() == LoopPhase::AskMain,
            action == LoopDo::<T>::AskMain,
    {
        self.phase = LoopPhase::AskMain;
        LoopDo::AskMain
    }

    fn one_background<T>(&mut self, tasks: &mut TaskQueue<T>) -> (action: LoopDo<T>)
        ensures
            final(self).spec_preempt_us() == old(self).spec_preempt_us(),
            (Step { phase: final(self).spec_phase(), tiers: final(tasks)@, action })
                == one_background(old(tasks)@),
    {
        if tasks.high_is_empty() {
            if let Some(t) = tasks.pop() {
                self.phase = LoopPhase::BackgroundRuns;
                return LoopDo::Run(t);
            }
        }
        self.ask_main()
    }

    fn drain_high<T>(&mut self, tasks: &mut TaskQueue<T>) -> (action: LoopDo<T>)
        ensures
            final(self).spec_preempt_us() == old(self).spec_preempt_us(),
            (Step { phase: final(self).spec_phase(), tiers: final(tasks)@, action }) == drain_high(
                old(tasks)@,
            ),
    {
        match tasks.pop_high() {
            Some(t) => {
                self.phase = LoopPhase::HighRuns;
                LoopDo::Run(t)
            },
            None => self.one_background(tasks),
        }
    }
}

/// A shard's runtime: its context and its driver.
#[derive(Debug)]
pub struct Runtime<D, F, H> {
    pub context: Context<F, H>,
    pub driver: D,
}

impl<D, F, H> Runtime<D, F, H> {
    /// A runtime from its parts.
    pub fn new(context: Context<F, H>, driver: D) -> (rt: Runtime<D, F, H>)
        ensures
            rt.context == context,
            rt.driver == driver,
    {
        Runtime { context, driver }
    }

    /// Begins to run the main future. Where that future runs as a task of its
    /// own it is handed in, and spawned with high priority. `preempt_setting` says
    /// how long tasks run on end before the loop turns to I/O.
    pub fn block_on(&mut self, main_task: Option<F>, preempt_setting: Option<&str>) -> (run: BlockOn)
        ensures
            run.spec_phase() == LoopPhase::Begin,
            run.spec_preempt_us() == self::preempt_setting(
                match preempt_setting {
                    Some(s) => Some(s@),
                    None => None,
                },
            ),
            final(self).driver == old(self).driver,
            match main_task {
                Some(future) => spawned(
                    &old(self).context,
                    &final(self).context,
                    future,
                    TaskPriority::High,
                ),
                None => final(self).context == old(self).context,
            },
            main_task matches Some(future) ==> {
                &&& final(self).context.tasks@.background == old(self).context.tasks@.background
                &&& final(self).context.tasks@.high == old(self).context.tasks@.high.push(
                    (Task {
                        thread_id: old(self).context.thread_id,
                        scheduler: LocalScheduler { priority: TaskPriority::High },
                        future,
                    }),
                )
                &&& final(self).context.thread_id == old(self).context.thread_id
            },
    {
        if let Some(future) = main_task {
            spawn(&mut self.context, future);
        }
        BlockOn::new(preempt_us(preempt_setting))
    }
}

/// A runtime on the `io_uring` driver or on the legacy one.
#[derive(Debug)]
pub enum FusionRuntime<L, R, F, H> {
    /// Uring driver based runtime.
    Uring(Runtime<L, F, H>),
    /// Legacy driver based runtime.
    Legacy(Runtime<R, F, H>),
}

impl<L, R, F, H> FusionRuntime<L, R, F, H> {
    /// The context of whichever runtime this is.
    pub open spec fn context(&self) -> Context<F, H> {
        match self {
            FusionRuntime::Uring(inner) => inner.context,
            FusionRuntime::Legacy(inner) => inner.context,
        }
    }

    /// The runtime on the `io_uring` driver.
    pub fn from_uring(r: Runtime<L, F, H>) -> (rt: FusionRuntime<L, R, F, H>)
        ensures
            rt == FusionRuntime::<L, R, F, H>::Uring(r),
    {
        FusionRuntime::Uring(r)
    }

    /// The runtime on the legacy driver.
    pub fn from_legacy(r: Runtime<R, F, H>) -> (rt: FusionRuntime<L, R, F, H>)
        ensures
            rt == FusionRuntime::<L, R, F, H>::Legacy(r),
    {
        FusionRuntime::Legacy(r)
    }

    /// Begins to run the main future on whichever runtime this is.
    pub fn block_on(&mut self, main_task: Option<F>, preempt_setting: Option<&str>) -> (run: BlockOn)
        ensures
            run.spec_phase() == LoopPhase::Begin,
            run.spec_preempt_us() == self::preempt_setting(
                match preempt_setting {
                    Some(s) => Some(s@),
                    None => None,
                },
            ),
            match (*old(self), *final(self)) {
                (FusionRuntime::Uring(before), FusionRuntime::Uring(after)) => after.driver
                    == before.driver,
                (FusionRuntime::Legacy(before), FusionRuntime::Legacy(after)) => after.driver
                    == before.driver,
                _ => false,
            },
            match main_task {
                Some(future) => spawned(
                    &old(self).context(),
                    &final(self).context(),
                    future,
                    TaskPriority::High,
                ),
                None => final(self).context() == old(self).context(),
            },
            main_task matches Some(future) ==> {
                &&& final(self).context().tasks@.background == old(self).context().tasks@.background
                &&& final(self).context().tasks@.high == old(self).context().tasks@.high.push(
                    (Task {
                        thread_id: old(self).context().thread_id,
                        scheduler: LocalScheduler { priority: TaskPriority::High },
                        future,
                    }),
                )
                &&& final(self).context().thread_id == old(self).context().thread_id
            },
    {
        match self {
            FusionRuntime::Uring(inner) => inner.block_on(main_task, preempt_setting),
            FusionRuntime::Legacy(inner) => inner.block_on(main_task, preempt_setting),
        }
    }
}

} // verus!
