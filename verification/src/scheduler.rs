//! The two-tier local scheduler.

use std::collections::VecDeque;

use vstd::prelude::*;

verus! {

/// Task priority for the two-tier local scheduler.
///
/// `High` tasks are drained before `Background` tasks in every reactor
/// iteration; background work runs whenever no high-priority task is pending.
#[derive(Clone, Copy, Debug, PartialEq, Eq, Structural)]
pub enum TaskPriority {
    /// Write-path tasks: request handlers, coordinator futures.
    High,
    /// Background tasks: compaction, repair, flush, heartbeats.
    Background,
}

/// The scheduler a task carries: it remembers the tier the task belongs to.
#[derive(Clone, Copy, Debug, PartialEq, Eq, Structural)]
pub struct LocalScheduler {
    pub priority: TaskPriority,
}

impl Default for LocalScheduler {
    fn default() -> (s: Self)
        ensures
            s.priority == TaskPriority::High,
    {
        LocalScheduler { priority: TaskPriority::High }
    }
}

/// A spawned unit of work: the future, the thread that owns it and its tier.
#[derive(Debug)]
pub struct Task<F> {
    pub thread_id: usize,
    pub scheduler: LocalScheduler,
    pub future: F,
}

/// What a [`TaskQueue`] holds: the two tiers, oldest task first.
#[verifier::ext_equal]
pub struct Tiers<T> {
    pub high: Seq<T>,
    pub background: Seq<T>,
}

impl<T> Tiers<T> {
    /// The tiers with one more task at the back of the tier of `priority`.
    pub open spec fn pushed(self, task: T, priority: TaskPriority) -> Tiers<T> {
        match priority {
            TaskPriority::High => Tiers { high: self.high.push(task), ..self },
            TaskPriority::Background => Tiers { background: self.background.push(task), ..self },
        }
    }

    /// The tiers without their oldest high-priority task.
    pub open spec fn without_first_high(self) -> Tiers<T> {
        Tiers { high: self.high.skip(1), ..self }
    }

    /// The tiers without their oldest background task.
    pub open spec fn without_first_background(self) -> Tiers<T> {
        Tiers { background: self.background.skip(1), ..self }
    }

    /// The task that runs next, if there is one: high before background, each
    /// tier in the order of arrival.
    pub open spec fn first(self) -> Option<T> {
        if self.high.len() > 0 {
            Some(self.high[0])
        } else if self.background.len() > 0 {
            Some(self.background[0])
        } else {
            None
        }
    }

    /// What is left when that task has been taken.
    pub open spec fn rest(self) -> Tiers<T> {
        if self.high.len() > 0 {
            self.without_first_high()
        } else {
            self.without_first_background()
        }
    }

    pub open spec fn is_empty(self) -> bool {
        self.high.len() == 0 && self.background.len() == 0
    }

    /// All tasks, in the order in which they would run.
    pub open spec fn in_order(self) -> Seq<T> {
        self.high + self.background
    }
}

/// The run queue of one shard.
#[derive(Debug)]
pub struct TaskQueue<T> {
    high: VecDeque<T>,
    background: VecDeque<T>,
}

impl<T> View for TaskQueue<T> {
    type V = Tiers<T>;

    closed spec fn view(&self) -> Tiers<T> {
        Tiers { high: self.high@, background: self.background@ }
    }
}

impl<T> Default for TaskQueue<T> {
    fn default() -> (q: Self)
        ensures
            q@.is_empty(),
            q@.high.len() == 0,
            q@.background.len() == 0,
    {
        TaskQueue::new()
    }
}

impl<T> TaskQueue<T> {
    /// An empty queue.
    pub fn new() -> (q: Self)
        ensures
            q@.is_empty(),
            q@.high.len() == 0,
            q@.background.len() == 0,
    {
        TaskQueue { high: VecDeque::with_capacity(4096), background: VecDeque::with_capacity(1024) }
    }

    /// The number of queued tasks.
    pub fn len(&self) -> (n: usize)
        requires
            self@.high.len() + self@.background.len() <= usize::MAX,
        ensures
            n == self@.high.len() + self@.background.len(),
    {
        self.high.len() + self.background.len()
    }

    /// Whether no task is queued.
    pub fn is_empty(&self) -> (b: bool)
        ensures
            b == self@.is_empty(),
            b <==> self@.high.len() == 0 && self@.background.len() == 0,
    {
        self.high.len() == 0 && self.background.len() == 0
    }

    /// Pushes a task onto the queue of its priority.
    pub fn push(&mut self, runnable: T, priority: TaskPriority)
        ensures
            final(self)@ == old(self)@.pushed(runnable, priority),
            match priority {
                TaskPriority::High => {
                    &&& final(self)@.high == old(self)@.high.push(runnable)
                    &&& final(self)@.background == old(self)@.background
                },
                TaskPriority::Background => {
                    &&& final(self)@.high == old(self)@.high
                    &&& final(self)@.background == old(self)@.background.push(runnable)
                },
            },
    {
        match priority {
            TaskPriority::High => self.high.push_back(runnable),
            TaskPriority::Background => self.background.push_back(runnable),
        }
    }

    /// Pushes a high-priority task.
    pub fn push_high(&mut self, runnable: T)
        ensures
            final(self)@ == old(self)@.pushed(runnable, TaskPriority::High),
            final(self)@.high == old(self)@.high.push(runnable),
            final(self)@.background == old(self)@.background,
    {
        self.push(runnable, TaskPriority::High)
    }

    /// Pops the oldest task: the high queue first, then the background queue.
    pub fn pop(&mut self) -> (t: Option<T>)
        ensures
            t == old(self)@.first(),
            final(self)@ == if t is Some { old(self)@.rest() } else { old(self)@ },
            match t {
                Some(task) => if old(self)@.high.len() > 0 {
                    &&& old(self)@.high == seq![task] + final(self)@.high
                    &&& old(self)@.background == final(self)@.background
                } else {
                    &&& final(self)@.high.len() == 0
                    &&& old(self)@.background == seq![task] + final(self)@.background
                },
                None => {
                    &&& old(self)@.high.len() == 0 && old(self)@.background.len() == 0
                    &&& final(self)@.high.len() == 0 && final(self)@.background.len() == 0
                },
            },
    {
        if let Some(t) = self.high.pop_front() {
            return Some(t);
        }
        self.background.pop_front()
    }

    /// Pops only from the high-priority queue.
    pub fn pop_high(&mut self) -> (t: Option<T>)
        ensures
            t == if old(self)@.high.len() > 0 { Some(old(self)@.high[0]) } else { None },
            final(self)@ == if t is Some { old(self)@.without_first_high() } else { old(self)@ },
            final(self)@.background == old(self)@.background,
            match t {
                Some(task) => old(self)@.high == seq![task] + final(self)@.high,
                None => old(self)@.high.len() == 0 && final(self)@.high.len() == 0,
            },
    {
        self.high.pop_front()
    }

    /// Whether no high-priority task is queued.
    pub fn high_is_empty(&self) -> (b: bool)
        ensures
            b == (self@.high.len() == 0),
    {
        self.high.len() == 0
    }

    /// Takes every queued task out, in the order in which a shutdown drops them:
    /// the high queue from its front, then the background queue from its front.
    pub fn drain(&mut self) -> (tasks: Vec<T>)
        ensures
            tasks@ == old(self)@.in_order(),
            tasks@ == old(self)@.high + old(self)@.background,
            final(self)@.is_empty(),
            final(self)@.high.len() == 0,
            final(self)@.background.len() == 0,
    {
        let mut tasks: Vec<T> = Vec::new();
        let ghost before = self@;
        while self.high.len() > 0
            invariant
                tasks@ + self@.in_order() == before.in_order(),
            decreases self.high@.len(),
        {
            if let Some(t) = self.high.pop_front() {
                tasks.push(t);
            }
        }
        while self.background.len() > 0
            invariant
                self@.high.len() == 0,
                tasks@ + self@.in_order() == before.in_order(),
            decreases self.background@.len(),
        {
            if let Some(t) = self.background.pop_front() {
                tasks.push(t);
            }
        }
        tasks
    }
}

/// The tiers after `k` pops with nothing pushed in between.
pub open spec fn after_pops<T>(tiers: Tiers<T>, k: nat) -> Tiers<T>
    decreases k,
{
    if k == 0 {
        tiers
    } else {
        after_pops(tiers, (k - 1) as nat).rest()
    }
}

/// Pops follow the order of the tiers: every high-priority task in the order of
/// arrival, then every background task in the order of arrival, each once.
pub proof fn law_pops_follow_the_order<T>(tiers: Tiers<T>, k: nat)
    requires
        k <= tiers.in_order().len(),
    ensures
        after_pops(tiers, k).in_order() == tiers.in_order().skip(k as int),
        after_pops(tiers, k).first() == if k < tiers.in_order().len() {
            Some(tiers.in_order()[k as int])
        } else {
            None
        },
    decreases k,
{
    if k > 0 {
        law_pops_follow_the_order(tiers, (k - 1) as nat);
        let before = after_pops(tiers, (k - 1) as nat);
        assert(before.in_order().len() > 0);
        assert(before.rest().in_order() =~= before.in_order().skip(1));
        assert(before.in_order().skip(1) =~= tiers.in_order().skip(k as int));
    } else {
        assert(tiers.in_order().skip(0) =~= tiers.in_order());
    }
    let now = after_pops(tiers, k);
    if now.in_order().len() > 0 {
        assert(now.in_order()[0] == tiers.in_order()[k as int]);
    }
}

/// A pushed task runs after every task of its tier that was queued before it and
/// does not overtake or delay the other tier.
pub proof fn law_push_goes_to_the_back<T>(tiers: Tiers<T>, task: T, priority: TaskPriority)
    ensures
        tiers.pushed(task, priority).in_order() == match priority {
            TaskPriority::High => tiers.high + seq![task] + tiers.background,
            TaskPriority::Background => tiers.in_order().push(task),
        },
{
    assert(tiers.high.push(task) + tiers.background =~= tiers.high + seq![task] + tiers.background);
    assert(tiers.high + tiers.background.push(task) =~= tiers.in_order().push(task));
}

} // verus!
