//! What a shard's thread carries while a runtime is running on it.

use std::task::Waker;

use rustc_hash::FxHashMap;
use vstd::prelude::*;

use crate::scheduler::{LocalScheduler, Task, TaskPriority, TaskQueue};
use crate::wakers::{WakerReceiver, WakerSender};

verus! {

/// `rustc_hash::FxBuildHasher`, carried opaquely.
#[verifier::external_type_specification]
#[verifier::external_body]
pub struct ExFxBuildHasher(rustc_hash::FxBuildHasher);

/// Calls `HashMap::get` on a map hashed with Fx: a reference to the value of the
/// key, if the map has that key. Fx hashes equal integers alike every time, so a
/// key that was put in is found.
#[verifier::external_body]
fn fx_get<V>(map: &FxHashMap<usize, V>, key: usize) -> (value: Option<&V>)
    ensures
        value == if map@.contains_key(key) { Some(&map@[key]) } else { None },
{
    map.get(&key)
}

/// Calls `HashMap::insert` on a map hashed with Fx: the key gets this value, the
/// other keys keep theirs, and the value the key had before comes back.
#[verifier::external_body]
fn fx_insert<V>(map: &mut FxHashMap<usize, V>, key: usize, value: V) -> (former: Option<V>)
    ensures
        final(map)@ == old(map)@.insert(key, value),
        former == if old(map)@.contains_key(key) { Some(old(map)@[key]) } else { None },
{
    map.insert(key, value)
}

/// A value remembered for each thread it was looked up for.
#[derive(Debug)]
pub struct ThreadCache<V> {
    by_thread: FxHashMap<usize, V>,
}

impl<V> View for ThreadCache<V> {
    type V = Map<usize, V>;

    closed spec fn view(&self) -> Map<usize, V> {
        self.by_thread@
    }
}

/// The value to use for a thread: the one remembered, or else the one found in
/// the registry.
pub open spec fn resolved<V>(cache: Map<usize, V>, id: usize, found: Option<V>) -> Option<V> {
    if cache.contains_key(id) {
        Some(cache[id])
    } else {
        found
    }
}

/// What is remembered afterwards: a value found in the registry is added.
pub open spec fn remembered<V>(cache: Map<usize, V>, id: usize, found: Option<V>) -> Map<usize, V> {
    match found {
        Some(v) => if cache.contains_key(id) {
            cache
        } else {
            cache.insert(id, v)
        },
        None => cache,
    }
}

impl<V> ThreadCache<V> {
    /// Nothing remembered.
    pub fn new() -> (cache: ThreadCache<V>)
        ensures
            cache@ == Map::<usize, V>::empty(),
    {
        ThreadCache { by_thread: FxHashMap::default() }
    }

    /// The value remembered for a thread.
    pub fn get(&self, id: usize) -> (value: Option<&V>)
        ensures
            value == if self@.contains_key(id) { Some(&self@[id]) } else { None },
    {
        fx_get(&self.by_thread, id)
    }

    /// The value to use for a thread, given what the registry holds for it. A
    /// value that was not remembered yet is from now on.
    pub fn resolve(&mut self, id: usize, found: Option<V>) -> (value: Option<&V>)
        ensures
            final(self)@ == remembered(old(self)@, id, found),
            value == match resolved(old(self)@, id, found) {
                Some(v) => Some(&v),
                None => None,
            },
            old(self)@.contains_key(id) ==> value == Some(&old(self)@[id]) && final(self)@ == old(
                self,
            )@,
            !old(self)@.contains_key(id) ==> match found {
                Some(v) => value == Some(&v) && final(self)@ == old(self)@.insert(id, v),
                None => value is None && final(self)@ == old(self)@,
            },
    {
        if fx_get(&self.by_thread, id).is_none() {
            if let Some(v) = found {
                let _ = fx_insert(&mut self.by_thread, id, v);
            }
        }
        fx_get(&self.by_thread, id)
    }
}

/// What became of a waker meant for another thread.
#[derive(Clone, Copy, Debug, PartialEq, Eq, Structural)]
pub enum Delivery {
    /// No channel to that thread is known.
    NoChannel,
    /// That thread no longer receives.
    Gone,
    /// The waker is on its way.
    Sent,
}

/// What an attempt to hand a waker to a known channel amounts to.
pub fn delivered(sent: &Result<(), Waker>) -> (delivery: Delivery)
    ensures
        delivery == match sent {
            Ok(_) => Delivery::Sent,
            Err(_) => Delivery::Gone,
        },
{
    match sent {
        Ok(_) => Delivery::Sent,
        Err(_) => Delivery::Gone,
    }
}

/// A shard's run queue, its thread id, and the handles on other threads that it
/// has looked up so far.
#[derive(Debug)]
pub struct Context<F, H> {
    /// The local run queue.
    pub tasks: TaskQueue<Task<F>>,
    /// The id of this thread, a generated number unique to it.
    pub thread_id: usize,
    /// The unpark handles looked up so far.
    pub unpark_cache: ThreadCache<H>,
    /// The waker channels looked up so far.
    pub waker_sender_cache: ThreadCache<WakerSender>,
}

impl<F, H> Context<F, H> {
    /// The unpark handles looked up so far, by thread.
    pub open spec fn unpark_handles(&self) -> Map<usize, H> {
        self.unpark_cache@
    }

    /// The waker channels looked up so far, by thread.
    pub open spec fn waker_senders(&self) -> Map<usize, WakerSender> {
        self.waker_sender_cache@
    }

    /// A context with an empty queue and nothing looked up.
    pub fn new(thread_id: usize) -> (cx: Context<F, H>)
        ensures
            cx.thread_id == thread_id,
            cx.tasks@.is_empty(),
            cx.tasks@.high.len() == 0,
            cx.tasks@.background.len() == 0,
            cx.unpark_handles() == Map::<usize, H>::empty(),
            cx.waker_senders() == Map::<usize, WakerSender>::empty(),
    {
        Context {
            tasks: TaskQueue::new(),
            thread_id,
            unpark_cache: ThreadCache::new(),
            waker_sender_cache: ThreadCache::new(),
        }
    }

    /// Whether [`Context::unpark_thread`] can do without the registry.
    pub fn knows_unpark_handle(&self, id: usize) -> (b: bool)
        ensures
            b == self.unpark_handles().contains_key(id),
    {
        self.unpark_cache.get(id).is_some()
    }

    /// Whether [`Context::send_waker`] can do without the registry.
    pub fn knows_waker_sender(&self, id: usize) -> (b: bool)
        ensures
            b == self.waker_senders().contains_key(id),
    {
        self.waker_sender_cache.get(id).is_some()
    }

    /// The handle to unpark thread `id` with, given what the registry of all
    /// threads holds for it. The registry is not consulted for a thread whose
    /// handle is already known.
    pub fn unpark_thread(&mut self, id: usize, found: Option<H>) -> (handle: Option<&H>)
        ensures
            handle == match resolved(old(self).unpark_handles(), id, found) {
                Some(h) => Some(&h),
                None => None,
            },
            final(self).unpark_handles() == remembered(old(self).unpark_handles(), id, found),
            old(self).unpark_handles().contains_key(id) ==> handle == Some(
                &old(self).unpark_handles()[id],
            ) && final(self).unpark_handles() == old(self).unpark_handles(),
            !old(self).unpark_handles().contains_key(id) ==> match found {
                Some(h) => handle == Some(&h) && final(self).unpark_handles() == old(
                    self,
                ).unpark_handles().insert(id, h),
                None => handle is None && final(self).unpark_handles() == old(
                    self,
                ).unpark_handles(),
            },
            final(self).waker_senders() == old(self).waker_senders(),
            final(self).tasks@ == old(self).tasks@,
            final(self).thread_id == old(self).thread_id,
    {
        self.unpark_cache.resolve(id, found)
    }

    /// The channel through which to send wakers to thread `id`, given what the
    /// registry of all threads holds for it.
    pub fn waker_sender(&mut self, id: usize, found: Option<WakerSender>) -> (sender: Option<
        &WakerSender,
    >)
        ensures
            sender == match resolved(old(self).waker_senders(), id, found) {
                Some(s) => Some(&s),
                None => None,
            },
            final(self).waker_senders() == remembered(old(self).waker_senders(), id, found),
            old(self).waker_senders().contains_key(id) ==> sender == Some(
                &old(self).waker_senders()[id],
            ) && final(self).waker_senders() == old(self).waker_senders(),
            !old(self).waker_senders().contains_key(id) ==> match found {
                Some(s) => sender == Some(&s) && final(self).waker_senders() == old(
                    self,
                ).waker_senders().insert(id, s),
                None => sender is None && final(self).waker_senders() == old(
                    self,
                ).waker_senders(),
            },
            final(self).unpark_handles() == old(self).unpark_handles(),
            final(self).tasks@ == old(self).tasks@,
            final(self).thread_id == old(self).thread_id,
    {
        self.waker_sender_cache.resolve(id, found)
    }

    /// Sends a waker to thread `id`, given what the registry of all threads holds
    /// for it. The registry is not consulted for a thread whose channel is already
    /// known. A waker that is sent has been handed in at that channel; one that is
    /// not sent found nobody at the other end. Whether the thread still receives is
    /// for it to say.
    pub fn send_waker(&mut self, id: usize, waker: Waker, found: Option<WakerSender>) -> (delivery:
        Delivery)
        ensures
            delivery is NoChannel <==> resolved(old(self).waker_senders(), id, found) is None,
            delivery is Sent ==> forall|receiver: WakerReceiver| #[trigger]
                resolved(old(self).waker_senders(), id, found)->0.feeds(receiver)
                    ==> receiver.handed_in().contains(waker),
            delivery is NoChannel <==> !old(self).waker_senders().contains_key(id) && found is None,
            delivery is Sent && old(self).waker_senders().contains_key(id) ==> forall|
                receiver: WakerReceiver,
            | #[trigger]
                old(self).waker_senders()[id].feeds(receiver) ==> receiver.handed_in().contains(
                    waker,
                ),
            delivery is Sent && !old(self).waker_senders().contains_key(id) ==> forall|
                receiver: WakerReceiver,
            | #[trigger]
                found->0.feeds(receiver) ==> receiver.handed_in().contains(waker),
            delivery is Gone ==> resolved(old(self).waker_senders(), id, found)->0.abandoned(),
            final(self).waker_senders() == remembered(old(self).waker_senders(), id, found),
            final(self).unpark_handles() == old(self).unpark_handles(),
            final(self).tasks@ == old(self).tasks@,
            final(self).thread_id == old(self).thread_id,
    {
        match self.waker_sender(id, found) {
            Some(sender) => delivered(&sender.send(waker)),
            None => Delivery::NoChannel,
        }
    }
}

/// The task that carries `future` on thread `thread_id` in the tier of
/// `scheduler`.
pub fn new_task<F>(thread_id: usize, future: F, scheduler: LocalScheduler) -> (task: Task<F>)
    ensures
        task == (Task { thread_id, scheduler, future }),
{
    Task { thread_id, scheduler, future }
}

/// Spawns a task with high priority.
pub fn spawn<F, H>(cx: &mut Context<F, H>, future: F)
    ensures
        spawned(old(cx), final(cx), future, TaskPriority::High),
        final(cx).tasks@.background == old(cx).tasks@.background,
        final(cx).tasks@.high == old(cx).tasks@.high.push(
            (Task {
                thread_id: old(cx).thread_id,
                scheduler: LocalScheduler { priority: TaskPriority::High },
                future,
            }),
        ),
{
    spawn_with_priority(cx, future, TaskPriority::High)
}

/// Spawns a task with explicit priority.
///
/// Use [`TaskPriority::High`] for write-path tasks and
/// [`TaskPriority::Background`] for compaction, repair, flush.
pub fn spawn_with_priority<F, H>(cx: &mut Context<F, H>, future: F, priority: TaskPriority)
    ensures
        spawned(old(cx), final(cx), future, priority),
        ({
            let task = Task {
                thread_id: old(cx).thread_id,
                scheduler: LocalScheduler { priority },
                future,
            };
            match priority {
                TaskPriority::High => final(cx).tasks@.high == old(cx).tasks@.high.push(task)
                    && final(cx).tasks@.background == old(cx).tasks@.background,
                TaskPriority::Background => final(cx).tasks@.high == old(cx).tasks@.high
                    && final(cx).tasks@.background == old(cx).tasks@.background.push(task),
            }
        }),
{
    let task = new_task(cx.thread_id, future, LocalScheduler { priority });
    cx.tasks.push(task, priority);
}

/// `after` is `before` with one more task at the back of the tier of `priority`:
/// this thread's task that carries `future` and stays in that tier.
pub open spec fn spawned<F, H>(
    before: &Context<F, H>,
    after: &Context<F, H>,
    future: F,
    priority: TaskPriority,
) -> bool {
    let task = Task {
        thread_id: before.thread_id,
        scheduler: LocalScheduler { priority },
        future,
    };
    &&& after.tasks@ == before.tasks@.pushed(task, priority)
    &&& after.thread_id == before.thread_id
    &&& after.unpark_handles() == before.unpark_handles()
    &&& after.waker_senders() == before.waker_senders()
}

impl LocalScheduler {
    /// Puts a task that was woken back on the queue of this scheduler's tier.
    pub fn schedule<F, H>(&self, cx: &mut Context<F, H>, task: Task<F>)
        ensures
            final(cx).tasks@ == old(cx).tasks@.pushed(task, self.priority),
            match self.priority {
                TaskPriority::High => final(cx).tasks@.high == old(cx).tasks@.high.push(task)
                    && final(cx).tasks@.background == old(cx).tasks@.background,
                TaskPriority::Background => final(cx).tasks@.high == old(cx).tasks@.high
                    && final(cx).tasks@.background == old(cx).tasks@.background.push(task),
            },
            final(cx).thread_id == old(cx).thread_id,
            final(cx).unpark_handles() == old(cx).unpark_handles(),
            final(cx).waker_senders() == old(cx).waker_senders(),
    {
        let p = self.priority;
        cx.tasks.push(task, p)
    }

    /// Puts a task that yields behind the others of its tier.
    pub fn yield_now<F, H>(&self, cx: &mut Context<F, H>, task: Task<F>)
        ensures
            final(cx).tasks@ == old(cx).tasks@.pushed(task, self.priority),
            match self.priority {
                TaskPriority::High => final(cx).tasks@.high == old(cx).tasks@.high.push(task)
                    && final(cx).tasks@.background == old(cx).tasks@.background,
                TaskPriority::Background => final(cx).tasks@.high == old(cx).tasks@.high
                    && final(cx).tasks@.background == old(cx).tasks@.background.push(task),
            },
            final(cx).thread_id == old(cx).thread_id,
            final(cx).unpark_handles() == old(cx).unpark_handles(),
            final(cx).waker_senders() == old(cx).waker_senders(),
    {
        self.schedule(cx, task)
    }
}

/// A handle once looked up is used from then on: whatever the registry says
/// later, the thread resolves to the same handle and nothing is remembered anew.
pub proof fn law_first_lookup_stays<V>(
    cache: Map<usize, V>,
    id: usize,
    first: V,
    later: Option<V>,
)
    ensures
        ({
            let after = remembered(cache, id, Some(first));
            &&& resolved(after, id, later) == resolved(cache, id, Some(first))
            &&& remembered(after, id, later) == after
        }),
{
}

/// Looking one thread up does not change what another resolves to.
pub proof fn law_lookups_are_independent<V>(
    cache: Map<usize, V>,
    id: usize,
    found: Option<V>,
    other: usize,
    other_found: Option<V>,
)
    requires
        id != other,
    ensures
        resolved(remembered(cache, id, found), other, other_found) == resolved(
            cache,
            other,
            other_found,
        ),
{
}

} // verus!
