//! Operations in flight and what becomes of them.

use std::task::Waker;

use vstd::prelude::*;

use crate::uring::entry::{OsError, MIN_REVERSED_USERDATA};
use crate::uring::slab::Slab;

verus! {

/// What a finished operation reports.
#[derive(Clone, Copy, Debug, PartialEq, Eq)]
pub struct CompletionMeta {
    pub result: Result<u32, OsError>,
    pub flags: u32,
}

/// Where an operation stands.
#[derive(Debug)]
pub enum Lifecycle<D> {
    /// Handed to the ring; nobody is waiting for it yet.
    Submitted,
    /// Handed to the ring; a task waits for it.
    Waiting(Waker),
    /// Handed to the ring, but its owner is gone. What the kernel may still
    /// touch is kept until the completion arrives.
    Ignored(Option<D>),
    /// Finished, not yet collected by its owner.
    Completed(CompletionMeta),
}

/// An operation's state, and whether its success value is a file descriptor.
#[derive(Debug)]
pub struct MaybeFdLifecycle<D> {
    pub is_fd: bool,
    pub state: Lifecycle<D>,
}

impl<D> MaybeFdLifecycle<D> {
    /// Whether the ring still owes a completion.
    pub open spec fn in_flight(self) -> bool {
        !(self.state is Completed)
    }

    /// Whether the owner still holds the operation.
    pub open spec fn owned(self) -> bool {
        !(self.state is Ignored)
    }

    pub open spec fn with_state(self, state: Lifecycle<D>) -> MaybeFdLifecycle<D> {
        MaybeFdLifecycle { is_fd: self.is_fd, state }
    }
}

/// What the host does after a completion was recorded.
#[derive(Debug)]
pub enum Completion<D> {
    /// Nothing: the owner will find the result.
    Stored,
    /// Wake the waiting task.
    Wake(Waker),
    /// Nobody wants the result any more: close it if it is a file descriptor,
    /// and release what was kept for the kernel.
    Discard { is_fd: bool, meta: CompletionMeta, data: Option<D> },
}

/// What dropping an operation found.
#[derive(Debug, PartialEq, Eq)]
pub enum Dropped {
    /// The completion is still owed.
    InFlight,
    /// It had finished and its result was never collected: close it if it is a
    /// file descriptor.
    Finished { is_fd: bool, meta: CompletionMeta },
}

/// The operations after `index` completes with `meta`.
pub open spec fn ops_completed<D>(
    ops: Map<usize, MaybeFdLifecycle<D>>,
    index: usize,
    meta: CompletionMeta,
) -> Map<usize, MaybeFdLifecycle<D>> {
    if ops[index].state is Ignored {
        ops.remove(index)
    } else {
        ops.insert(index, ops[index].with_state(Lifecycle::Completed(meta)))
    }
}

/// What the host is told when `op` completes with `meta`.
pub open spec fn completion_of<D>(op: MaybeFdLifecycle<D>, meta: CompletionMeta) -> Completion<D> {
    match op.state {
        Lifecycle::Waiting(waker) => Completion::Wake(waker),
        Lifecycle::Ignored(data) => Completion::Discard { is_fd: op.is_fd, meta, data },
        _ => Completion::Stored,
    }
}

/// The operations of one driver, by index.
#[derive(Debug)]
pub struct Ops<D> {
    slab: Slab<MaybeFdLifecycle<D>>,
}

impl<D> View for Ops<D> {
    type V = Map<usize, MaybeFdLifecycle<D>>;

    closed spec fn view(&self) -> Map<usize, MaybeFdLifecycle<D>> {
        self.slab@
    }
}

impl<D> Ops<D> {
    /// The table's invariant: no operation's index is one of the tokens that do
    /// not name an operation.
    pub closed spec fn wf(&self) -> bool {
        &&& self.slab.wf()
        &&& self.slab.limit() == MIN_REVERSED_USERDATA
    }

    /// An operation's index, taken as a token, is never one of the tokens that
    /// do not name an operation.
    pub proof fn lemma_indices_are_not_reserved(&self)
        requires
            self.wf(),
        ensures
            self@.dom().finite(),
            forall|index: usize| #[trigger]
                self@.contains_key(index) ==> index < MIN_REVERSED_USERDATA,
    {
        self.slab.lemma_keys_below_limit();
    }

    /// No operations.
    pub fn new() -> (ops: Ops<D>)
        ensures
            ops.wf(),
            ops@ == Map::<usize, MaybeFdLifecycle<D>>::empty(),
    {
        Ops { slab: Slab::with_limit(MIN_REVERSED_USERDATA) }
    }

    /// The number of operations.
    pub fn len(&self) -> (n: usize)
        requires
            self.wf(),
        ensures
            n == self@.dom().len(),
    {
        self.slab.len()
    }

    /// Enters a new operation and gives it an index.
    pub fn insert(&mut self, is_fd: bool) -> (index: usize)
        requires
            old(self).wf(),
            old(self)@.dom().len() < MIN_REVERSED_USERDATA,
        ensures
            final(self).wf(),
            !old(self)@.contains_key(index),
            index < MIN_REVERSED_USERDATA,
            final(self)@ == old(self)@.insert(
                index,
                (MaybeFdLifecycle { is_fd, state: Lifecycle::Submitted }),
            ),
    {
        self.slab.insert(MaybeFdLifecycle { is_fd, state: Lifecycle::Submitted })
    }

    /// Whether there is an operation with this index.
    pub fn contains(&self, index: usize) -> (b: bool)
        requires
            self.wf(),
        ensures
            b == self@.contains_key(index),
    {
        self.slab.contains(index)
    }

    /// Whether the ring owes this operation a completion.
    pub fn is_in_flight(&self, index: usize) -> (b: bool)
        requires
            self.wf(),
        ensures
            b == (self@.contains_key(index) && self@[index].in_flight()),
            b <==> self@.contains_key(index) && !(self@[index].state is Completed),
    {
        match self.slab.get(index) {
            Some(op) => match &op.state {
                Lifecycle::Completed(_) => false,
                _ => true,
            },
            None => false,
        }
    }

    /// Whether this operation's owner still holds it.
    pub fn is_owned(&self, index: usize) -> (b: bool)
        requires
            self.wf(),
        ensures
            b == (self@.contains_key(index) && self@[index].owned()),
            b <==> self@.contains_key(index) && !(self@[index].state is Ignored),
    {
        match self.slab.get(index) {
            Some(op) => match &op.state {
                Lifecycle::Ignored(_) => false,
                _ => true,
            },
            None => false,
        }
    }

    /// Records the completion of an operation in flight.
    pub fn complete(&mut self, index: usize, result: Result<u32, OsError>, flags: u32) -> (todo:
        Completion<D>)
        requires
            old(self).wf(),
            old(self)@.contains_key(index),
            old(self)@[index].in_flight(),
        ensures
            final(self).wf(),
            final(self)@ == ops_completed(old(self)@, index, (CompletionMeta { result, flags })),
            todo == completion_of(old(self)@[index], (CompletionMeta { result, flags })),
            match old(self)@[index].state {
                Lifecycle::Waiting(waker) => todo == Completion::<D>::Wake(waker),
                Lifecycle::Ignored(data) => todo == (Completion::Discard {
                    is_fd: old(self)@[index].is_fd,
                    meta: CompletionMeta { result, flags },
                    data,
                }),
                _ => todo is Stored,
            },
            forall|other: usize|
                other != index ==> (#[trigger] final(self)@.contains_key(other) <==> old(
                    self,
                )@.contains_key(other)) && final(self)@[other] == old(self)@[other],
            final(self)@.contains_key(index) <==> !(old(self)@[index].state is Ignored),
            !(old(self)@[index].state is Ignored) ==> {
                &&& final(self)@[index].is_fd == old(self)@[index].is_fd
                &&& final(self)@[index].state == Lifecycle::<D>::Completed(
                    CompletionMeta { result, flags },
                )
            },
    {
        let meta = CompletionMeta { result, flags };
        let is_fd: bool = self.is_fd(index);
        let former = self.slab.replace(
            index,
            MaybeFdLifecycle { is_fd, state: Lifecycle::Completed(meta) },
        );
        match former.state {
            Lifecycle::Waiting(waker) => Completion::Wake(waker),
            Lifecycle::Ignored(data) => {
                let _ = self.slab.remove(index);
                assert(self@ =~= old(self)@.remove(index));
                Completion::Discard { is_fd, meta, data }
            },
            _ => Completion::Stored,
        }
    }

    /// Whether the success value of an operation is a file descriptor.
    fn is_fd(&self, index: usize) -> (b: bool)
        requires
            self.wf(),
            self@.contains_key(index),
        ensures
            b == self@[index].is_fd,
    {
        match self.slab.get(index) {
            Some(op) => op.is_fd,
            None => false,
        }
    }

    /// Asks for an operation's result on behalf of a task. An operation that is
    /// still in flight will wake that task; one that has finished is collected
    /// and leaves the table.
    pub fn poll_op(&mut self, index: usize, waker: Waker) -> (ready: Option<CompletionMeta>)
        requires
            old(self).wf(),
            old(self)@.contains_key(index),
            old(self)@[index].owned(),
        ensures
            final(self).wf(),
            ready == match old(self)@[index].state {
                Lifecycle::Completed(meta) => Some(meta),
                _ => None,
            },
            final(self)@ == if ready is Some {
                old(self)@.remove(index)
            } else {
                old(self)@.insert(
                    index,
                    old(self)@[index].with_state(Lifecycle::Waiting(waker)),
                )
            },
            ready is None ==> final(self)@[index].is_fd == old(self)@[index].is_fd,
            ready is None ==> final(self)@[index].state == Lifecycle::<D>::Waiting(waker),
    {
        let is_fd: bool = self.is_fd(index);
        let former = self.slab.replace(
            index,
            MaybeFdLifecycle { is_fd, state: Lifecycle::Waiting(waker) },
        );
        match former.state {
            Lifecycle::Completed(meta) => {
                let _ = self.slab.remove(index);
                assert(self@ =~= old(self)@.remove(index));
                Some(meta)
            },
            _ => None,
        }
    }

    /// Gives an operation up on behalf of its owner. One that is still in flight
    /// keeps `data` until its completion arrives; one that has finished leaves the
    /// table.
    pub fn drop_op(&mut self, index: usize, data: &mut Option<D>) -> (found: Dropped)
        requires
            old(self).wf(),
            old(self)@.contains_key(index),
            old(self)@[index].owned(),
        ensures
            final(self).wf(),
            match old(self)@[index].state {
                Lifecycle::Completed(meta) => {
                    &&& found == Dropped::Finished { is_fd: old(self)@[index].is_fd, meta }
                    &&& final(self)@ == old(self)@.remove(index)
                    &&& *final(data) == *old(data)
                },
                _ => {
                    &&& found == Dropped::InFlight
                    &&& final(self)@ == old(self)@.insert(
                        index,
                        old(self)@[index].with_state(Lifecycle::Ignored(*old(data))),
                    )
                    &&& final(self)@[index].is_fd == old(self)@[index].is_fd
                    &&& final(self)@[index].state == Lifecycle::Ignored(*old(data))
                    &&& *final(data) is None
                },
            },
    {
        let is_fd: bool = self.is_fd(index);
        if self.is_in_flight(index) {
            let kept = MaybeFdLifecycle { is_fd, state: Lifecycle::Ignored(data.take()) };
            let _ = self.slab.replace(index, kept);
            return Dropped::InFlight;
        }
        let former = self.slab.remove(index);
        match former.state {
            Lifecycle::Completed(meta) => Dropped::Finished { is_fd, meta },
            _ => Dropped::InFlight,
        }
    }
}

} // verus!
