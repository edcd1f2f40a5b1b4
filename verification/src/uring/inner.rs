//! The state a driver shares with its operations.

use std::task::Waker;

use vstd::prelude::*;

use crate::uring::entry::{
    outcome_of, resultify, Cqe, FailureKind, Features, OsError, Sqe, SqLevel, SubmitError,
    EVENTFD_USERDATA, MIN_REVERSED_USERDATA, POLLER_USERDATA,
};
use crate::uring::errno::Errnos;
use crate::uring::ops::{
    completion_of, ops_completed, Completion, CompletionMeta, Dropped, Lifecycle, MaybeFdLifecycle,
    Ops,
};
use crate::wakers::WakerReceiver;

verus! {

/// The operations in flight, and which of the ring's own entries are queued.
#[derive(Debug)]
pub struct UringInner<D> {
    ops: Ops<D>,
    eventfd_installed: bool,
    poller_installed: bool,
    ext_arg: bool,
    features: Features,
    errnos: Errnos,
    waker_receiver: Option<WakerReceiver>,
}

/// What changes in a [`UringInner`].
#[verifier::ext_equal]
pub struct RingState<D> {
    /// The operations by index.
    pub ops: Map<usize, MaybeFdLifecycle<D>>,
    /// Whether the ring holds the read of the wake-up eventfd.
    pub eventfd_installed: bool,
    /// Whether the ring holds the wait for the readiness poller.
    pub poller_installed: bool,
}

/// What a completion token stands for.
pub enum Token {
    /// The read of the wake-up eventfd.
    Eventfd,
    /// The readiness poller.
    Poller,
    /// A cancellation, a timeout, or a token this driver does not use.
    Inert,
    /// The operation with this index.
    Operation(usize),
}

/// What `user_data` stands for under `features`.
pub open spec fn token_of(features: Features, user_data: u64) -> Token {
    if features.sync && user_data == EVENTFD_USERDATA {
        Token::Eventfd
    } else if features.poll_io && user_data == POLLER_USERDATA {
        Token::Poller
    } else if user_data >= MIN_REVERSED_USERDATA {
        Token::Inert
    } else {
        Token::Operation(user_data as usize)
    }
}

impl<D> RingState<D> {
    /// The ring before anything was submitted.
    pub open spec fn initial() -> RingState<D> {
        RingState { ops: Map::empty(), eventfd_installed: false, poller_installed: false }
    }

    /// Whether `cqe` is a completion that the ring owes.
    pub open spec fn owes(self, features: Features, cqe: Cqe) -> bool {
        match token_of(features, cqe.user_data) {
            Token::Operation(index) => {
                &&& self.ops.contains_key(index)
                &&& self.ops[index].in_flight()
                &&& cqe.result > i32::MIN
            },
            _ => true,
        }
    }

    /// The state after `cqe` was reaped.
    pub open spec fn reaped(self, features: Features, cqe: Cqe) -> RingState<D> {
        match token_of(features, cqe.user_data) {
            Token::Eventfd => RingState { eventfd_installed: false, ..self },
            Token::Poller => RingState { poller_installed: false, ..self },
            Token::Inert => self,
            Token::Operation(index) => RingState {
                ops: ops_completed(self.ops, index, meta_of(cqe)),
                ..self
            },
        }
    }

    /// The state after a series of completions was reaped, first to last.
    pub open spec fn reaped_all(self, features: Features, cqes: Seq<Cqe>) -> RingState<D>
        decreases cqes.len(),
    {
        if cqes.len() == 0 {
            self
        } else {
            self.reaped_all(features, cqes.drop_last()).reaped(features, cqes.last())
        }
    }

    /// What the host has to do for the operations among `cqes`, in their order.
    pub open spec fn todo_for(self, features: Features, cqes: Seq<Cqe>) -> Seq<Completion<D>>
        decreases cqes.len(),
    {
        if cqes.len() == 0 {
            Seq::empty()
        } else {
            let before = self.reaped_all(features, cqes.drop_last());
            let todo = self.todo_for(features, cqes.drop_last());
            match token_of(features, cqes.last().user_data) {
                Token::Operation(index) => todo.push(
                    completion_of(before.ops[index], meta_of(cqes.last())),
                ),
                _ => todo,
            }
        }
    }
}

/// What a completion reports of its operation.
pub open spec fn meta_of(cqe: Cqe) -> CompletionMeta {
    CompletionMeta { result: outcome_of(cqe.result), flags: cqe.flags }
}

/// Why a walk over a batch of completions stopped.
#[derive(Clone, Copy, Debug, PartialEq, Eq, Structural)]
pub enum TickStop {
    /// The batch is exhausted.
    Drained,
    /// The entry just reaped was the readiness poller's: the poller is to be
    /// ticked before the walk goes on.
    Poller,
    /// The next entry is no completion that the ring owes.
    Stray,
}

/// How far a walk over a batch of completions got.
#[derive(Debug)]
pub struct Ticked<D> {
    /// The index of the first entry not reaped.
    pub next: usize,
    /// What the host has to do for the entries reaped, in order.
    pub todo: Vec<Completion<D>>,
    pub stop: TickStop,
}

/// What the submission loop has seen.
#[derive(Clone, Copy, Debug, PartialEq, Eq)]
pub enum SubmitSeen {
    /// Nothing yet.
    Start,
    /// The outcome of a submission.
    Submitted(Result<usize, SubmitError>),
    /// The outcome of reaping completions to make room.
    Ticked(Result<usize, OsError>),
}

/// What the submission loop does next.
#[derive(Clone, Copy, Debug, PartialEq, Eq)]
pub enum SubmitDo {
    /// Submit the queued entries without waiting.
    Submit,
    /// Reap completions to make room, then submit again.
    Tick,
    /// The loop is over.
    Return(Result<(), OsError>),
}

/// Whether a failed submission says that the ring could not take the entries just
/// now: by the kind of the error or by its number, as `features` has it.
pub open spec fn is_to_be_retried(features: Features, errnos: Errnos, e: SubmitError) -> bool {
    if features.unstable {
        e.kind is Other || e.kind is ResourceBusy
    } else {
        errnos.says_retry(e.error)
    }
}

/// The submission loop: a ring that cannot take entries just now is given room
/// by reaping completions, for as long as that is the only trouble.
pub open spec fn submit_next(features: Features, errnos: Errnos, seen: SubmitSeen) -> SubmitDo {
    match seen {
        SubmitSeen::Start => SubmitDo::Submit,
        SubmitSeen::Submitted(Ok(_)) => SubmitDo::Return(Ok(())),
        SubmitSeen::Submitted(Err(e)) => if is_to_be_retried(features, errnos, e) {
            SubmitDo::Tick
        } else {
            SubmitDo::Return(Err(e.error))
        },
        SubmitSeen::Ticked(Ok(_)) => SubmitDo::Submit,
        SubmitSeen::Ticked(Err(e)) => SubmitDo::Return(Err(e)),
    }
}

/// What the submission of an operation has seen.
#[derive(Clone, Copy, Debug, PartialEq, Eq)]
pub enum OpSeen {
    /// The fill level of the submission queue.
    Level(SqLevel),
    /// The outcome of flushing a full queue.
    Flushed(Result<(), OsError>),
}

/// What the submission of an operation does next.
#[derive(Clone, Copy, Debug, PartialEq, Eq)]
pub enum OpDo {
    /// Flush the queue to the kernel.
    Flush,
    /// The operation has this index: queue its entry.
    Push(usize),
    /// The operation cannot be submitted.
    Fail(OsError),
}

/// Whether an operation is entered on seeing `seen`.
pub open spec fn op_enters(seen: OpSeen) -> bool {
    match seen {
        OpSeen::Level(level) => level.len != level.capacity,
        OpSeen::Flushed(flushed) => flushed is Ok,
    }
}

/// What a cancellation has seen.
#[derive(Clone, Copy, Debug, PartialEq, Eq)]
pub enum CancelSeen {
    /// Nothing yet.
    Start,
    /// Whether the queue took the entry at the first try.
    FirstPush(bool),
    /// The queue was flushed, with whatever success.
    Flushed,
    /// The second try, with whatever success.
    SecondPush,
}

/// What a cancellation does next.
#[derive(Clone, Copy, Debug, PartialEq, Eq)]
pub enum CancelDo {
    /// Queue this entry.
    Push(Sqe),
    /// Flush the queue to the kernel.
    Flush,
    /// The cancellation is queued, or could not be.
    Done,
}

/// What dropping an operation asks of the host.
#[derive(Debug, PartialEq, Eq)]
pub enum DropDo {
    /// Nothing.
    Nothing,
    /// The operation had finished and its result was never collected: close it
    /// if it is a file descriptor.
    Release { is_fd: bool, meta: CompletionMeta },
    /// Cancel the operation with this index.
    Cancel(usize),
}

/// Which readiness an operation waits for.
#[derive(Clone, Copy, Debug, PartialEq, Eq, Structural)]
pub enum Direction {
    Read,
    Write,
}

/// How an operation is carried out without the ring.
#[derive(Clone, Copy, Debug, PartialEq, Eq, Structural)]
pub enum LegacyRoute {
    /// The system call does not rely on readiness: make it right away.
    CallNow,
    /// Wait until the file with this index is ready, then make the call.
    WhenReady(Direction, usize),
}

impl<D> UringInner<D> {
    pub closed spec fn state(&self) -> RingState<D> {
        RingState {
            ops: self.ops@,
            eventfd_installed: self.eventfd_installed,
            poller_installed: self.poller_installed,
        }
    }

    pub closed spec fn spec_features(&self) -> Features {
        self.features
    }

    pub closed spec fn spec_errnos(&self) -> Errnos {
        self.errnos
    }

    pub closed spec fn spec_ext_arg(&self) -> bool {
        self.ext_arg
    }

    /// The end at which foreign wakers arrive.
    pub closed spec fn receiver(&self) -> Option<WakerReceiver> {
        self.waker_receiver
    }

    /// The invariant: the operations are well-formed.
    pub closed spec fn wf(&self) -> bool {
        self.ops.wf()
    }

    /// Everything but the state is as in `other`.
    pub open spec fn same_setup(&self, other: &UringInner<D>) -> bool {
        &&& self.spec_features() == other.spec_features()
        &&& self.spec_errnos() == other.spec_errnos()
        &&& self.spec_ext_arg() == other.spec_ext_arg()
        &&& self.receiver() == other.receiver()
    }

    /// No operation's index, taken as a token, is one of the tokens that do not
    /// name an operation.
    pub proof fn law_indices_are_not_reserved(&self)
        requires
            self.wf(),
        ensures
            forall|index: usize| #[trigger]
                self.state().ops.contains_key(index) ==> index < MIN_REVERSED_USERDATA,
    {
        self.ops.lemma_indices_are_not_reserved();
    }

    /// A ring with nothing submitted.
    pub fn new(features: Features, ext_arg: bool, waker_receiver: Option<WakerReceiver>) -> (inner:
        UringInner<D>)
        ensures
            inner.wf(),
            inner.state() == RingState::<D>::initial(),
            inner.state().ops == Map::<usize, MaybeFdLifecycle<D>>::empty(),
            !inner.state().eventfd_installed,
            !inner.state().poller_installed,
            inner.spec_features() == features,
            inner.spec_ext_arg() == ext_arg,
            inner.receiver() == waker_receiver,
            inner.spec_errnos().again == 11,
            inner.spec_errnos().busy == 16,
            inner.spec_errnos().time == 62 || inner.spec_errnos().time == 73,
    {
        UringInner {
            ops: Ops::new(),
            eventfd_installed: false,
            poller_installed: false,
            ext_arg,
            features,
            errnos: Errnos::native(),
            waker_receiver,
        }
    }

    /// Walks over `batch` from the entry `from` on: records what each completion
    /// means for the operation or the ring entry it belongs to. The walk stops
    /// after an entry of the readiness poller, and before an entry that is no
    /// completion that the ring owes.
    pub fn tick(&mut self, batch: &[Cqe], from: usize) -> (ticked: Ticked<D>)
        requires
            old(self).wf(),
            from <= batch@.len(),
        ensures
            final(self).wf(),
            final(self).same_setup(old(self)),
            from <= ticked.next <= batch@.len(),
            ({
                let features = old(self).spec_features();
                let done = batch@.subrange(from as int, ticked.next as int);
                &&& final(self).state() == old(self).state().reaped_all(features, done)
                &&& ticked.todo@ == old(self).state().todo_for(features, done)
                &&& forall|i: int|
                    0 <= i < done.len() ==> old(self).state().reaped_all(
                        features,
                        #[trigger] done.take(i),
                    ).owes(features, done[i])
                &&& forall|i: int|
                    0 <= i < done.len() && token_of(
                        features,
                        (#[trigger] done[i]).user_data,
                    ) is Poller ==> ticked.stop is Poller && i == done.len() - 1
                &&& match ticked.stop {
                    TickStop::Drained => ticked.next == batch@.len(),
                    TickStop::Poller => done.len() > 0 && token_of(
                        features,
                        done.last().user_data,
                    ) is Poller,
                    TickStop::Stray => ticked.next < batch@.len() && !final(self).state().owes(
                        features,
                        batch@[ticked.next as int],
                    ),
                }
            }),
    {
        let ghost features = self.features;
        let ghost start = self.state();
        let mut todo: Vec<Completion<D>> = Vec::new();
        let mut next: usize = from;
        let mut stop: TickStop = TickStop::Drained;
        assert(batch@.subrange(from as int, next as int) =~= Seq::<Cqe>::empty());
        while next < batch.len() && stop == TickStop::Drained
            invariant
                self.wf(),
                self.same_setup(old(self)),
                features == old(self).spec_features(),
                features == self.spec_features(),
                start == old(self).state(),
                from <= next <= batch@.len(),
                self.state() == start.reaped_all(
                    features,
                    batch@.subrange(from as int, next as int),
                ),
                todo@ == start.todo_for(features, batch@.subrange(from as int, next as int)),
                forall|i: int|
                    from <= i < next ==> start.reaped_all(
                        features,
                        #[trigger] batch@.subrange(from as int, i),
                    ).owes(features, batch@[i]),
                forall|i: int|
                    from <= i < next && token_of(
                        features,
                        (#[trigger] batch@[i]).user_data,
                    ) is Poller ==> stop is Poller && i == next - 1,
                match stop {
                    TickStop::Drained => true,
                    TickStop::Poller => next > from && token_of(
                        features,
                        batch@[next - 1].user_data,
                    ) is Poller,
                    TickStop::Stray => next < batch@.len() && !self.state().owes(
                        features,
                        batch@[next as int],
                    ),
                },
            decreases batch@.len() - next + if stop == TickStop::Drained { 1int } else { 0int },
        {
            let cqe: Cqe = batch[next];
            let index: u64 = cqe.user_data;
            proof {
                let grown = batch@.subrange(from as int, next + 1);
                assert(grown.drop_last() =~= batch@.subrange(from as int, next as int));
                assert(grown.last() == cqe);
            }
            if self.features.sync && index == EVENTFD_USERDATA {
                self.eventfd_installed = false;
                next = next + 1;
            } else if self.features.poll_io && index == POLLER_USERDATA {
                self.poller_installed = false;
                next = next + 1;
                stop = TickStop::Poller;
            } else if index >= MIN_REVERSED_USERDATA {
                next = next + 1;
            } else if self.ops.is_in_flight(index as usize) && cqe.result > i32::MIN {
                let done = self.ops.complete(index as usize, resultify(&cqe), cqe.flags);
                todo.push(done);
                next = next + 1;
            } else {
                stop = TickStop::Stray;
            }
        }
        proof {
            let done = batch@.subrange(from as int, next as int);
            assert forall|i: int| 0 <= i < done.len() implies start.reaped_all(
                features,
                #[trigger] done.take(i),
            ).owes(features, done[i]) by {
                assert(done.take(i) =~= batch@.subrange(from as int, from + i));
            }
        }
        Ticked { next, todo, stop }
    }

    /// The driver's optional parts.
    pub fn features(&self) -> (f: Features)
        ensures
            f == self.spec_features(),
    {
        self.features
    }

    /// The platform's error numbers.
    pub fn errnos(&self) -> (e: Errnos)
        ensures
            e == self.spec_errnos(),
    {
        self.errnos
    }

    /// Whether a wait can carry its own timeout.
    pub fn ext_arg(&self) -> (b: bool)
        ensures
            b == self.spec_ext_arg(),
    {
        self.ext_arg
    }

    /// Whether the ring holds the read of the wake-up eventfd.
    pub fn eventfd_installed(&self) -> (b: bool)
        ensures
            b == self.state().eventfd_installed,
    {
        self.eventfd_installed
    }

    /// Whether the ring holds the wait for the readiness poller.
    pub fn poller_installed(&self) -> (b: bool)
        ensures
            b == self.state().poller_installed,
    {
        self.poller_installed
    }

    /// Records that the read of the wake-up eventfd was queued, and gives its
    /// entry.
    pub fn install_eventfd(&mut self) -> (entry: Sqe)
        requires
            old(self).wf(),
        ensures
            final(self).wf(),
            final(self).same_setup(old(self)),
            final(self).state() == (RingState { eventfd_installed: true, ..old(self).state() }),
            entry == Sqe::ReadEventfd,
    {
        self.eventfd_installed = true;
        Sqe::ReadEventfd
    }

    /// Records that the wait for the readiness poller was queued, and gives its
    /// entry.
    pub fn install_poller(&mut self) -> (entry: Sqe)
        requires
            old(self).wf(),
        ensures
            final(self).wf(),
            final(self).same_setup(old(self)),
            final(self).state() == (RingState { poller_installed: true, ..old(self).state() }),
            entry == Sqe::PollPoller,
    {
        self.poller_installed = true;
        Sqe::PollPoller
    }

    /// The number of operations.
    pub fn num_operations(&self) -> (n: usize)
        requires
            self.wf(),
        ensures
            n == self.state().ops.dom().len(),
    {
        self.ops.len()
    }

    /// Takes one foreign waker, if the driver listens for them and another
    /// thread has sent one.
    pub fn recv_waker(&self) -> (waker: Option<Waker>)
        ensures
            self.receiver() is None ==> waker is None,
            waker matches Some(w) ==> self.receiver()->0.handed_in().contains(w),
    {
        match &self.waker_receiver {
            Some(receiver) => receiver.try_recv(),
            None => None,
        }
    }

    /// One step of the submission loop.
    pub fn submit(&self, seen: SubmitSeen) -> (next: SubmitDo)
        ensures
            next == submit_next(self.spec_features(), self.spec_errnos(), seen),
            seen matches SubmitSeen::Ticked(Ok(_)) ==> next is Submit,
            next == SubmitDo::Return(Ok(())) ==> (seen matches SubmitSeen::Submitted(sent)
                && sent is Ok),
    {
        match seen {
            SubmitSeen::Start => SubmitDo::Submit,
            SubmitSeen::Submitted(submitted) => match submitted {
                Ok(_) => SubmitDo::Return(Ok(())),
                Err(e) => if self.retries(&e) {
                    SubmitDo::Tick
                } else {
                    SubmitDo::Return(Err(e.error))
                },
            },
            SubmitSeen::Ticked(ticked) => match ticked {
                Ok(_) => SubmitDo::Submit,
                Err(e) => SubmitDo::Return(Err(e)),
            },
        }
    }

    fn retries(&self, e: &SubmitError) -> (b: bool)
        ensures
            b == is_to_be_retried(self.spec_features(), self.spec_errnos(), *e),
    {
        if self.features.unstable {
            match e.kind {
                FailureKind::Other | FailureKind::ResourceBusy => true,
                FailureKind::Unrelated => false,
            }
        } else {
            self.errnos.is_retry(&e.error)
        }
    }

    /// Enters a new operation and gives it an index.
    pub fn new_op(&mut self, is_fd: bool) -> (index: usize)
        requires
            old(self).wf(),
            old(self).state().ops.dom().len() < MIN_REVERSED_USERDATA,
        ensures
            final(self).wf(),
            final(self).same_setup(old(self)),
            !old(self).state().ops.contains_key(index),
            index < MIN_REVERSED_USERDATA,
            final(self).state() == (RingState {
                ops: old(self).state().ops.insert(
                    index,
                    MaybeFdLifecycle { is_fd, state: Lifecycle::Submitted },
                ),
                ..old(self).state()
            }),
    {
        self.ops.insert(is_fd)
    }

    /// One step of the submission of an operation: a full queue is flushed
    /// first, and an operation is entered only once there is room. `is_fd` tells
    /// whether its success value is a file descriptor.
    pub fn submit_with_data(&mut self, is_fd: bool, seen: OpSeen) -> (next: OpDo)
        requires
            old(self).wf(),
            op_enters(seen) ==> old(self).state().ops.dom().len() < MIN_REVERSED_USERDATA,
        ensures
            final(self).wf(),
            final(self).same_setup(old(self)),
            match next {
                OpDo::Flush => !op_enters(seen) && seen is Level,
                OpDo::Fail(e) => seen == OpSeen::Flushed(Err(e)),
                OpDo::Push(_) => op_enters(seen),
            },
            match next {
                OpDo::Push(index) => {
                    &&& !old(self).state().ops.contains_key(index)
                    &&& index < MIN_REVERSED_USERDATA
                    &&& final(self).state() == (RingState {
                        ops: old(self).state().ops.insert(
                            index,
                            MaybeFdLifecycle { is_fd, state: Lifecycle::Submitted },
                        ),
                        ..old(self).state()
                    })
                },
                _ => final(self).state() == old(self).state(),
            },
            match seen {
                OpSeen::Level(level) => (next is Flush <==> level.len == level.capacity) && (next
                    is Push <==> level.len != level.capacity),
                OpSeen::Flushed(Ok(_)) => next is Push,
                OpSeen::Flushed(Err(e)) => next == OpDo::Fail(e),
            },
    {
        match seen {
            OpSeen::Level(level) => if level.is_full() {
                OpDo::Flush
            } else {
                OpDo::Push(self.new_op(is_fd))
            },
            OpSeen::Flushed(flushed) => match flushed {
                Ok(_) => OpDo::Push(self.new_op(is_fd)),
                Err(e) => OpDo::Fail(e),
            },
        }
    }

    /// Asks for an operation's result on behalf of a task. An operation that is
    /// still in flight will wake that task; one that has finished is collected.
    pub fn poll_op(&mut self, index: usize, waker: Waker) -> (ready: Option<CompletionMeta>)
        requires
            old(self).wf(),
            old(self).state().ops.contains_key(index),
            old(self).state().ops[index].owned(),
        ensures
            final(self).wf(),
            final(self).same_setup(old(self)),
            ready == match old(self).state().ops[index].state {
                Lifecycle::Completed(meta) => Some(meta),
                _ => None,
            },
            final(self).state() == (RingState {
                ops: if ready is Some {
                    old(self).state().ops.remove(index)
                } else {
                    old(self).state().ops.insert(
                        index,
                        old(self).state().ops[index].with_state(Lifecycle::Waiting(waker)),
                    )
                },
                ..old(self).state()
            }),
            ready is None ==> {
                &&& final(self).state().ops[index].is_fd == old(self).state().ops[index].is_fd
                &&& final(self).state().ops[index].state == Lifecycle::<D>::Waiting(waker)
            },
    {
        self.ops.poll_op(index, waker)
    }

    /// How to carry out an operation without the ring, given the readiness it
    /// relies on.
    pub fn poll_legacy_op(interest: Option<(Direction, usize)>) -> (route: LegacyRoute)
        ensures
            route == match interest {
                Some(on) => LegacyRoute::WhenReady(on.0, on.1),
                None => LegacyRoute::CallNow,
            },
    {
        match interest {
            Some((direction, index)) => LegacyRoute::WhenReady(direction, index),
            None => LegacyRoute::CallNow,
        }
    }

    /// What a system call that was made right away reports.
    pub fn legacy_ready(result: Result<u32, OsError>) -> (meta: CompletionMeta)
        ensures
            meta == (CompletionMeta { result, flags: 0 }),
    {
        CompletionMeta { result, flags: 0 }
    }

    /// Whether this operation's owner still holds it.
    pub fn is_owned(&self, index: usize) -> (b: bool)
        requires
            self.wf(),
        ensures
            b == (self.state().ops.contains_key(index) && self.state().ops[index].owned()),
            b <==> self.state().ops.contains_key(index) && !(self.state().ops[index].state is Ignored),
    {
        self.ops.is_owned(index)
    }

    /// Gives an operation up on behalf of its owner.
    ///
    /// An owner that has already collected its result passes `usize::MAX`. An
    /// operation still in flight keeps `data` until its completion arrives, and is
    /// cancelled where the driver does that and `skip_cancel` does not forbid it.
    pub fn drop_op(&mut self, index: usize, data: &mut Option<D>, skip_cancel: bool) -> (next:
        DropDo)
        requires
            old(self).wf(),
            index != usize::MAX && old(self).state().ops.contains_key(index) ==> old(
                self,
            ).state().ops[index].owned(),
        ensures
            final(self).wf(),
            final(self).same_setup(old(self)),
            if index == usize::MAX || !old(self).state().ops.contains_key(index) {
                &&& next is Nothing
                &&& final(self).state() == old(self).state()
                &&& *final(data) == *old(data)
            } else {
                match old(self).state().ops[index].state {
                    Lifecycle::Completed(meta) => {
                        &&& next == DropDo::Release {
                            is_fd: old(self).state().ops[index].is_fd,
                            meta,
                        }
                        &&& final(self).state() == (RingState {
                            ops: old(self).state().ops.remove(index),
                            ..old(self).state()
                        })
                        &&& *final(data) == *old(data)
                    },
                    _ => {
                        &&& next == if old(self).spec_features().async_cancel && !skip_cancel {
                            DropDo::Cancel(index)
                        } else {
                            DropDo::Nothing
                        }
                        &&& final(self).state() == (RingState {
                            ops: old(self).state().ops.insert(
                                index,
                                old(self).state().ops[index].with_state(
                                    Lifecycle::Ignored(*old(data)),
                                ),
                            ),
                            ..old(self).state()
                        })
                        &&& final(self).state().ops[index].is_fd == old(
                            self,
                        ).state().ops[index].is_fd
                        &&& final(self).state().ops[index].state == Lifecycle::Ignored(*old(data))
                        &&& *final(data) is None
                    },
                }
            },
    {
        if index == usize::MAX || !self.ops.contains(index) {
            return DropDo::Nothing;
        }
        match self.ops.drop_op(index, data) {
            Dropped::Finished { is_fd, meta } => DropDo::Release { is_fd, meta },
            Dropped::InFlight => if self.features.async_cancel && !skip_cancel {
                DropDo::Cancel(index)
            } else {
                DropDo::Nothing
            },
        }
    }

    /// One step of the cancellation of an operation: the entry is queued; if the
    /// queue is full it is flushed and the entry tried once more.
    pub fn cancel_op(index: usize, seen: CancelSeen) -> (next: CancelDo)
        ensures
            next == match seen {
                CancelSeen::Start | CancelSeen::Flushed => CancelDo::Push(
                    Sqe::AsyncCancel(index as u64),
                ),
                CancelSeen::FirstPush(false) => CancelDo::Flush,
                CancelSeen::FirstPush(true) | CancelSeen::SecondPush => CancelDo::Done,
            },
    {
        match seen {
            CancelSeen::Start => CancelDo::Push(Sqe::AsyncCancel(index as u64)),
            CancelSeen::FirstPush(taken) => if taken {
                CancelDo::Done
            } else {
                CancelDo::Flush
            },
            CancelSeen::Flushed => CancelDo::Push(Sqe::AsyncCancel(index as u64)),
            CancelSeen::SecondPush => CancelDo::Done,
        }
    }
}

} // verus!
