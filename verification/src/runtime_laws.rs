//! What holds of every run of the loop, whatever tasks and I/O do.

use vstd::prelude::*;

use crate::runtime::{
    loop_answers, loop_next, preempt_setting, preempted, LoopDo, LoopPhase, LoopSeen, Step,
};
use crate::scheduler::{TaskPriority, Tiers};
use crate::text::decimal;
use crate::text_laws::{law_only_digits_are_numbers, law_printed_numbers_are_read_back, printed};

verus! {

/// One exchange with the host.
pub struct LoopMoment<T> {
    /// What the loop's action brought.
    pub seen: LoopSeen,
    /// The queue at that time. Tasks that run, and I/O that completes, may have
    /// added to it.
    pub tiers: Tiers<T>,
}

/// A run of the loop from its beginning.
pub struct LoopRun<T> {
    pub preempt_us: u64,
    pub moments: Seq<LoopMoment<T>>,
}

impl<T> LoopRun<T> {
    /// The step the loop takes at exchange `k`.
    pub open spec fn step(self, k: int) -> Step<T> {
        loop_next(self.preempt_us, self.phase(k), self.moments[k].tiers, self.moments[k].seen)
    }

    /// Where the loop stands after `k` exchanges.
    pub open spec fn phase(self, k: int) -> LoopPhase
        decreases k,
    {
        if k <= 0 {
            LoopPhase::Begin
        } else {
            loop_next(
                self.preempt_us,
                self.phase(k - 1),
                self.moments[k - 1].tiers,
                self.moments[k - 1].seen,
            ).phase
        }
    }

    /// The action the loop asks for after `k` exchanges.
    pub open spec fn action(self, k: int) -> LoopDo<T> {
        if k <= 0 {
            LoopDo::MarkMain
        } else {
            self.step(k - 1).action
        }
    }

    pub open spec fn seen(self, k: int) -> LoopSeen {
        self.moments[k].seen
    }

    /// Whether the host answered every action.
    pub open spec fn valid(self) -> bool {
        forall|k: int|
            0 <= k < self.moments.len() ==> loop_answers(self.phase(k), #[trigger] self.seen(k))
    }
}

/// Whether the loop's phase and the action it asks for belong together.
spec fn matches_phase<T>(phase: LoopPhase, action: LoopDo<T>) -> bool {
    match phase {
        LoopPhase::Begin => action is MarkMain,
        LoopPhase::TurnStart => action is StartClock,
        LoopPhase::HighRuns | LoopPhase::BackgroundRuns => action is Run,
        LoopPhase::HighClock => action is ReadClock,
        LoopPhase::AskMain => action is AskMain,
        LoopPhase::PollMain => action is PollMain,
        LoopPhase::Submitting => action is Submit,
        LoopPhase::Parking => action is Park,
        LoopPhase::Done => action is Return,
    }
}

proof fn lemma_phase_names_action<T>(run: LoopRun<T>, k: int)
    requires
        run.valid(),
        0 <= k <= run.moments.len(),
    ensures
        matches_phase(run.phase(k), run.action(k)),
{
    if k > 0 {
        assert(loop_answers(run.phase(k - 1), run.seen(k - 1)));
    }
}

/// The task that runs is the one at the head of the queue: a high-priority task
/// if one is queued, a background task only if none is. It leaves the queue and
/// nothing else does.
pub proof fn law_high_runs_before_background<T>(run: LoopRun<T>, k: int, task: T)
    requires
        run.valid(),
        0 <= k < run.moments.len(),
        run.step(k).action == LoopDo::Run(task),
    ensures
        run.moments[k].tiers.first() == Some(task),
        run.step(k).tiers == run.moments[k].tiers.rest(),
{
    assert(loop_answers(run.phase(k), run.seen(k)));
}

/// A step that does not run a task leaves the queue as it is.
pub proof fn law_no_task_is_lost<T>(run: LoopRun<T>, k: int)
    requires
        run.valid(),
        0 <= k < run.moments.len(),
        !(run.step(k).action is Run),
    ensures
        run.step(k).tiers == run.moments[k].tiers,
{
    assert(loop_answers(run.phase(k), run.seen(k)));
}

/// Whenever a drain finds no high-priority task queued, a queued background task
/// runs: background work is not starved by an idle high tier.
pub proof fn law_background_runs_when_high_is_empty<T>(run: LoopRun<T>, k: int)
    requires
        run.valid(),
        0 <= k < run.moments.len(),
        run.action(k) is StartClock || run.action(k) is ReadClock,
        run.moments[k].tiers.high.len() == 0,
        run.moments[k].tiers.background.len() > 0,
    ensures
        run.step(k).action == LoopDo::Run(run.moments[k].tiers.background[0]),
{
    lemma_phase_names_action(run, k);
    assert(loop_answers(run.phase(k), run.seen(k)));
}

/// Whether the loop has finished running tasks for this turn.
spec fn past_tasks(phase: LoopPhase) -> bool {
    match phase {
        LoopPhase::AskMain | LoopPhase::PollMain | LoopPhase::Submitting | LoopPhase::Parking
        | LoopPhase::Done => true,
        _ => false,
    }
}

/// Once the budget is spent the loop turns to I/O: at most one more task runs
/// before it does, and that one only if no high-priority task is queued.
pub proof fn law_spent_budget_yields_to_io<T>(run: LoopRun<T>, i: int, j: int)
    requires
        run.valid(),
        0 <= i < j < run.moments.len(),
        run.seen(i) matches LoopSeen::Elapsed(nanos) && preempted(run.preempt_us, nanos),
        forall|k: int| i < k <= j ==> !(#[trigger] run.action(k) is StartClock),
    ensures
        !(run.step(j).action is Run),
        run.step(i).action is Run ==> run.moments[i].tiers.high.len() == 0,
{
    assert(loop_answers(run.phase(i), run.seen(i)));
    lemma_past_tasks(run, i, j);
    assert(loop_answers(run.phase(j), run.seen(j)));
    lemma_phase_names_action(run, j);
    assert(!(run.action(j) is StartClock));
}

/// After the step that follows a spent budget the loop runs at most the task of
/// that step until its next turn.
proof fn lemma_past_tasks<T>(run: LoopRun<T>, i: int, k: int)
    requires
        run.valid(),
        0 <= i < k < run.moments.len(),
        run.seen(i) matches LoopSeen::Elapsed(nanos) && preempted(run.preempt_us, nanos),
        forall|m: int| i < m <= k ==> !(#[trigger] run.action(m) is StartClock),
    ensures
        past_tasks(run.phase(k)) || (k == i + 1 && run.phase(k) == LoopPhase::BackgroundRuns),
    decreases k,
{
    assert(loop_answers(run.phase(k - 1), run.seen(k - 1)));
    if k - 1 > i {
        lemma_past_tasks(run, i, k - 1);
        lemma_phase_names_action(run, k);
        assert(!(run.action(k) is StartClock));
    }
}

/// Every turn but the first begins with a visit to I/O: between two turns the
/// loop submits or parks.
pub proof fn law_turns_are_separated_by_io<T>(run: LoopRun<T>, j: int)
    requires
        run.valid(),
        1 < j <= run.moments.len(),
        run.action(j) is StartClock,
    ensures
        run.action(j - 1) is Submit || run.action(j - 1) is Park,
{
    assert(loop_answers(run.phase(j - 1), run.seen(j - 1)));
    assert(loop_answers(run.phase(j - 2), run.seen(j - 2)));
    assert(run.phase(j - 1) == run.step(j - 2).phase);
    lemma_phase_names_action(run, j - 1);
}

/// The loop parks only with nothing to do: no task is queued and the main future
/// was not woken. It then waits for I/O instead of turning idle rounds.
pub proof fn law_parks_only_when_idle<T>(run: LoopRun<T>, k: int)
    requires
        run.valid(),
        0 <= k < run.moments.len(),
        run.step(k).action is Park || run.step(k).action is ParkZero,
    ensures
        run.step(k).action is Park,
        run.moments[k].tiers.is_empty(),
        run.seen(k) == LoopSeen::MainWoken(false),
{
    assert(loop_answers(run.phase(k), run.seen(k)));
}

/// The main future is polled only when it was woken, and the loop ends only when
/// it is ready, at the poll that found it so.
pub proof fn law_main_is_polled_when_woken<T>(run: LoopRun<T>, k: int)
    requires
        run.valid(),
        0 <= k < run.moments.len(),
    ensures
        run.step(k).action is PollMain <==> run.seen(k) == LoopSeen::MainWoken(true),
        run.step(k).action is Return <==> run.seen(k) == LoopSeen::MainReady(true),
{
    assert(loop_answers(run.phase(k), run.seen(k)));
}

impl<T> LoopRun<T> {
    /// Whether the main future is marked as to be polled after `k` exchanges:
    /// the loop marked it and has not asked since.
    pub open spec fn marked(self, k: int) -> bool
        decreases k,
    {
        k > 0 && (self.action(k - 1) is MarkMain || (self.marked(k - 1) && !(self.action(k - 1)
            is AskMain)))
    }

    /// Whether the host keeps marks: asked whether the main future was woken, it
    /// says so of one that is marked.
    pub open spec fn keeps_marks(self) -> bool {
        forall|k: int|
            0 <= k < self.moments.len() && self.action(k) is AskMain && self.marked(k)
                ==> #[trigger] self.seen(k) == LoopSeen::MainWoken(true)
    }
}

/// The main future is polled, woken or not, before the loop turns to I/O for the
/// first time: a future that nobody has woken yet is not waited for.
pub proof fn law_main_is_polled_before_io<T>(run: LoopRun<T>, j: int)
    requires
        run.valid(),
        run.keeps_marks(),
        0 <= j <= run.moments.len(),
        run.action(j) is Submit || run.action(j) is Park,
    ensures
        exists|i: int| 0 <= i < j && #[trigger] run.action(i) is PollMain,
{
    lemma_phase_names_action(run, j);
    lemma_mark_or_poll(run, j);
}

/// Until the main future is polled it stays marked, and the loop has not got past
/// asking for it.
proof fn lemma_mark_or_poll<T>(run: LoopRun<T>, k: int)
    requires
        run.valid(),
        run.keeps_marks(),
        0 <= k <= run.moments.len(),
    ensures
        (exists|i: int| 0 <= i < k && #[trigger] run.action(i) is PollMain) || match run.phase(k) {
            LoopPhase::Begin | LoopPhase::PollMain => true,
            LoopPhase::TurnStart | LoopPhase::HighRuns | LoopPhase::HighClock
            | LoopPhase::BackgroundRuns | LoopPhase::AskMain => run.marked(k),
            _ => false,
        },
    decreases k,
{
    if k > 0 {
        lemma_mark_or_poll(run, k - 1);
        lemma_phase_names_action(run, k - 1);
        assert(loop_answers(run.phase(k - 1), run.seen(k - 1)));
        assert(run.phase(k) == run.step(k - 1).phase);
    }
}

/// The tier of `priority`.
pub open spec fn tier<T>(tiers: Tiers<T>, priority: TaskPriority) -> Seq<T> {
    match priority {
        TaskPriority::High => tiers.high,
        TaskPriority::Background => tiers.background,
    }
}

impl<T> LoopRun<T> {
    /// Whether tasks are only added between exchanges, at the back of a tier.
    pub open spec fn only_adds(self) -> bool {
        forall|k: int, priority: TaskPriority|
            0 < k < self.moments.len() ==> tier(self.step(k - 1).tiers, priority).is_prefix_of(
                #[trigger] tier(self.moments[k].tiers, priority),
            )
    }

    /// The tasks of a tier in the order in which they were queued, up to the
    /// `k`-th exchange.
    pub open spec fn queued(self, priority: TaskPriority, k: int) -> Seq<T>
        decreases k,
    {
        if k <= 0 {
            Seq::empty()
        } else if k == 1 {
            tier(self.moments[0].tiers, priority)
        } else {
            let left = tier(self.step(k - 2).tiers, priority);
            self.queued(priority, k - 1) + tier(self.moments[k - 1].tiers, priority).skip(
                left.len() as int,
            )
        }
    }

    /// The tasks of a tier in the order in which the first `k` steps run them.
    pub open spec fn ran(self, priority: TaskPriority, k: int) -> Seq<T>
        decreases k,
    {
        if k <= 0 {
            Seq::empty()
        } else {
            let before = self.ran(priority, k - 1);
            let from = if self.moments[k - 1].tiers.high.len() > 0 {
                TaskPriority::High
            } else {
                TaskPriority::Background
            };
            match self.step(k - 1).action {
                LoopDo::Run(task) => if from == priority {
                    before.push(task)
                } else {
                    before
                },
                _ => before,
            }
        }
    }
}

/// Where tasks are only added at the back between exchanges, the tasks of one tier
/// run in the order in which they were queued, each once and none passed over: at
/// any moment those that have run, followed by those still queued, are all that
/// were queued.
pub proof fn law_tasks_run_in_order<T>(run: LoopRun<T>, priority: TaskPriority, k: int)
    requires
        run.valid(),
        run.only_adds(),
        0 < k <= run.moments.len(),
    ensures
        run.queued(priority, k) == run.ran(priority, k) + tier(run.step(k - 1).tiers, priority),
    decreases k,
{
    let now = tier(run.moments[k - 1].tiers, priority);
    let left = tier(run.step(k - 1).tiers, priority);
    let ran = run.ran(priority, k - 1);
    if k > 1 {
        law_tasks_run_in_order(run, priority, k - 1);
        let kept = tier(run.step(k - 2).tiers, priority);
        assert(kept.is_prefix_of(now));
        assert(kept + now.skip(kept.len() as int) =~= now);
        assert(run.queued(priority, k) =~= ran + now);
    } else {
        assert(run.queued(priority, k) =~= ran + now);
    }
    if let LoopDo::Run(task) = run.step(k - 1).action {
        law_high_runs_before_background(run, k - 1, task);
        if run.ran(priority, k) != ran {
            assert(now =~= seq![task] + left);
            assert(ran + now =~= run.ran(priority, k) + left);
        } else {
            assert(loop_answers(run.phase(k - 1), run.seen(k - 1)));
        }
    } else {
        law_no_task_is_lost(run, k - 1);
    }
}

/// The drain keeps its budget of `preempt_us` microseconds. On a look at the clock
/// with a high-priority task queued, the oldest one runs exactly if less than the
/// budget has passed since the turn began.
pub proof fn law_drain_keeps_its_budget<T>(run: LoopRun<T>, k: int, nanos: u128)
    requires
        run.valid(),
        0 <= k < run.moments.len(),
        run.seen(k) == LoopSeen::Elapsed(nanos),
        run.moments[k].tiers.high.len() > 0,
    ensures
        nanos < 1000 * run.preempt_us ==> run.step(k).action == LoopDo::Run(
            run.moments[k].tiers.high[0],
        ) && run.moments[k].tiers.high == seq![run.moments[k].tiers.high[0]] + run.step(
            k,
        ).tiers.high,
        nanos >= 1000 * run.preempt_us ==> run.step(k).action is AskMain && run.step(k).tiers.high
            == run.moments[k].tiers.high,
{
    assert(loop_answers(run.phase(k), run.seen(k)));
}

/// Once the budget of `preempt_us` microseconds is over, no high-priority task runs
/// before the loop has turned to I/O, and a background task only at once and only
/// with no high-priority task queued.
pub proof fn law_overdue_tasks_wait_for_io<T>(run: LoopRun<T>, i: int, j: int, nanos: u128)
    requires
        run.valid(),
        0 <= i <= j < run.moments.len(),
        run.seen(i) == LoopSeen::Elapsed(nanos),
        nanos >= 1000 * run.preempt_us,
        forall|k: int|
            i < k <= j ==> !(#[trigger] run.action(k) is Submit) && !(run.action(k) is Park),
    ensures
        run.step(j).action is Run ==> j == i && run.moments[i].tiers.high.len() == 0,
{
    assert(loop_answers(run.phase(i), run.seen(i)));
    if i < j {
        lemma_overdue(run, i, j, nanos);
        assert(loop_answers(run.phase(j), run.seen(j)));
    }
}

proof fn lemma_overdue<T>(run: LoopRun<T>, i: int, k: int, nanos: u128)
    requires
        run.valid(),
        0 <= i < k < run.moments.len(),
        run.seen(i) == LoopSeen::Elapsed(nanos),
        nanos >= 1000 * run.preempt_us,
        forall|m: int|
            i < m <= k ==> !(#[trigger] run.action(m) is Submit) && !(run.action(m) is Park),
    ensures
        match run.phase(k) {
            LoopPhase::BackgroundRuns | LoopPhase::AskMain | LoopPhase::PollMain
            | LoopPhase::Done => true,
            _ => false,
        },
    decreases k,
{
    assert(loop_answers(run.phase(k - 1), run.seen(k - 1)));
    assert(run.phase(k) == run.step(k - 1).phase);
    if k - 1 > i {
        lemma_overdue(run, i, k - 1, nanos);
    } else {
        assert(loop_answers(run.phase(i), run.seen(i)));
    }
    lemma_phase_names_action(run, k);
    assert(!(run.action(k) is Submit) && !(run.action(k) is Park));
}

/// A turn begins by noting the time and then runs the oldest high-priority task, if
/// there is one. After each high-priority task the loop looks at the clock, and at
/// no other time.
pub proof fn law_turn_drains_high_tasks<T>(run: LoopRun<T>, k: int)
    requires
        run.valid(),
        0 <= k < run.moments.len(),
    ensures
        run.action(0) is MarkMain,
        run.action(k) is MarkMain ==> run.step(k).action is StartClock,
        run.action(k) is StartClock && run.moments[k].tiers.high.len() > 0 ==> run.step(k).action
            == LoopDo::Run(run.moments[k].tiers.high[0]),
        run.action(k) is StartClock && run.moments[k].tiers.high.len() == 0
            && run.moments[k].tiers.background.len() == 0 ==> run.step(k).action is AskMain,
        run.step(k).action is Run && run.moments[k].tiers.high.len() > 0 && k + 1
            < run.moments.len() ==> run.step(k + 1).action is ReadClock,
        run.step(k).action is ReadClock ==> k > 0 && run.action(k) is Run
            && run.moments[k - 1].tiers.high.len() > 0,
{
    lemma_phase_names_action(run, k);
    assert(loop_answers(run.phase(k), run.seen(k)));
    if k > 0 {
        assert(loop_answers(run.phase(k - 1), run.seen(k - 1)));
        assert(run.phase(k) == run.step(k - 1).phase);
    }
    if k + 1 < run.moments.len() {
        assert(loop_answers(run.phase(k + 1), run.seen(k + 1)));
        assert(run.phase(k + 1) == run.step(k).phase);
    }
}

/// At most one background task runs between two visits to I/O, and once it has run
/// no other task does before the next visit.
pub proof fn law_one_background_task_at_a_time<T>(run: LoopRun<T>, i: int, j: int)
    requires
        run.valid(),
        0 <= i < j < run.moments.len(),
        run.step(i).action is Run,
        run.moments[i].tiers.high.len() == 0,
        forall|k: int|
            i < k <= j ==> !(#[trigger] run.action(k) is Submit) && !(run.action(k) is Park),
    ensures
        !(run.step(j).action is Run),
{
    lemma_after_background(run, i, j);
    assert(loop_answers(run.phase(j), run.seen(j)));
}

proof fn lemma_after_background<T>(run: LoopRun<T>, i: int, k: int)
    requires
        run.valid(),
        0 <= i < k < run.moments.len(),
        run.step(i).action is Run,
        run.moments[i].tiers.high.len() == 0,
        forall|m: int|
            i < m <= k ==> !(#[trigger] run.action(m) is Submit) && !(run.action(m) is Park),
    ensures
        match run.phase(k) {
            LoopPhase::BackgroundRuns | LoopPhase::AskMain | LoopPhase::PollMain
            | LoopPhase::Done => true,
            _ => false,
        },
    decreases k,
{
    assert(loop_answers(run.phase(k - 1), run.seen(k - 1)));
    assert(run.phase(k) == run.step(k - 1).phase);
    if k - 1 > i {
        lemma_after_background(run, i, k - 1);
    }
    lemma_phase_names_action(run, k);
    assert(!(run.action(k) is Submit) && !(run.action(k) is Park));
}

/// When the main future is not woken the loop turns to I/O: it waits there exactly
/// if no task of either tier is queued, and only looks in otherwise. A main future
/// that was polled and is not ready is asked for again, and after I/O a new turn
/// begins.
pub proof fn law_loop_waits_only_without_tasks<T>(run: LoopRun<T>, k: int)
    requires
        run.valid(),
        0 <= k < run.moments.len(),
    ensures
        run.seen(k) == LoopSeen::MainWoken(false) ==> run.step(k).action
            == if run.moments[k].tiers.high.len() == 0 && run.moments[k].tiers.background.len()
            == 0 {
            LoopDo::<T>::Park
        } else {
            LoopDo::<T>::Submit
        },
        run.seen(k) == LoopSeen::MainReady(false) ==> run.step(k).action is AskMain,
        run.action(k) is Submit || run.action(k) is Park ==> run.step(k).action is StartClock,
        run.step(k).action is AskMain ==> run.step(k).tiers == run.moments[k].tiers,
{
    lemma_phase_names_action(run, k);
    assert(loop_answers(run.phase(k), run.seen(k)));
}

/// The preemption budget is the number of the setting: any number of 64 bits,
/// written in decimal, is read back, and it is 5000 microseconds where there is no
/// setting.
pub proof fn law_preempt_setting_is_read_back(us: u64)
    ensures
        preempt_setting(Some(printed(us as nat))) == us,
        preempt_setting(None) == 5000,
{
    law_printed_numbers_are_read_back(us as nat);
}

/// A setting that is no number of 64 bits leaves the budget at 5000 microseconds:
/// one without a digit, one with anything but digits after an optional plus sign,
/// one that is too large.
pub proof fn law_other_settings_leave_the_default(s: Seq<char>, i: int)
    requires
        ({
            ||| s.len() == 0
            ||| s.len() == 1 && s[0] == '+'
            ||| 0 <= i < s.len() && !('0' <= s[i] <= '9') && !(i == 0 && s[0] == '+')
            ||| decimal(s) matches Some(n) && n > 0xffff_ffff_ffff_ffff
        }),
    ensures
        preempt_setting(Some(s)) == 5000,
{
    law_only_digits_are_numbers(s, i);
}

} // verus!
