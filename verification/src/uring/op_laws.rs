//! What holds of operations from submission to collection.

use std::task::Waker;

use vstd::prelude::*;

use crate::uring::entry::{
    Cqe, FailureKind, Features, OsError, Sqe, SubmitError, MIN_REVERSED_USERDATA,
};
use crate::uring::errno::Errnos;
use crate::uring::inner::{
    is_to_be_retried, meta_of, submit_next, token_of, RingState, SubmitDo, SubmitSeen, Token,
    UringInner,
};
use crate::uring::ops::{
    completion_of, Completion, CompletionMeta, Lifecycle, MaybeFdLifecycle,
};

verus! {

/// A completion finds what it belongs to: the token put on an entry stands for
/// that entry and for no other. An operation's token is never taken for one of the
/// ring's own, nor the other way round.
pub proof fn law_tokens_tell_entries_apart(features: Features, entry: Sqe)
    requires
        entry matches Sqe::Operation(index) ==> index < MIN_REVERSED_USERDATA,
    ensures
        token_of(features, entry.token()) == match entry {
            Sqe::Operation(index) => Token::Operation(index),
            Sqe::ReadEventfd => if features.sync {
                Token::Eventfd
            } else {
                Token::Inert
            },
            Sqe::PollPoller => if features.poll_io {
                Token::Poller
            } else {
                Token::Inert
            },
            Sqe::Timeout(_) | Sqe::AsyncCancel(_) => Token::Inert,
        },
{
}

/// An operation that its owner still holds ends up with exactly what its
/// completion reports, and neither the other operations nor the ring's own entries
/// are touched.
pub proof fn law_completion_reaches_its_operation<D>(
    ring: RingState<D>,
    features: Features,
    index: usize,
    cqe: Cqe,
    other: usize,
)
    requires
        index < MIN_REVERSED_USERDATA,
        cqe.user_data == Sqe::Operation(index).token(),
        ring.owes(features, cqe),
        ring.ops[index].owned(),
    ensures
        ({
            let after = ring.reaped(features, cqe);
            &&& after.ops[index] == ring.ops[index].with_state(Lifecycle::Completed(meta_of(cqe)))
            &&& after.ops.dom() == ring.ops.dom()
            &&& other != index ==> after.ops[other] == ring.ops[other]
            &&& after.eventfd_installed == ring.eventfd_installed
            &&& after.poller_installed == ring.poller_installed
        }),
{
    law_tokens_tell_entries_apart(features, Sqe::Operation(index));
    assert(ring.reaped(features, cqe).ops.dom() =~= ring.ops.dom());
}

/// An operation that is submitted, completes and is collected leaves no trace in
/// the table, whether or not a task waited for it in between; and the task that
/// waited is woken.
pub proof fn law_collected_operation_leaves_no_trace<D>(
    ring: RingState<D>,
    features: Features,
    index: usize,
    is_fd: bool,
    waiting: Option<Waker>,
    cqe: Cqe,
)
    requires
        index < MIN_REVERSED_USERDATA,
        !ring.ops.contains_key(index),
        cqe.user_data == Sqe::Operation(index).token(),
        cqe.result > i32::MIN,
    ensures
        ({
            let state = match waiting {
                Some(waker) => Lifecycle::<D>::Waiting(waker),
                None => Lifecycle::<D>::Submitted,
            };
            let submitted = RingState {
                ops: ring.ops.insert(index, MaybeFdLifecycle { is_fd, state }),
                ..ring
            };
            let completed = submitted.reaped(features, cqe);
            &&& submitted.owes(features, cqe)
            &&& completed.ops[index].state == Lifecycle::<D>::Completed(meta_of(cqe))
            &&& completed.ops.remove(index) == ring.ops
            &&& submitted.todo_for(features, seq![cqe]) == seq![
                match waiting {
                    Some(waker) => Completion::<D>::Wake(waker),
                    None => Completion::<D>::Stored,
                },
            ]
        }),
{
    law_tokens_tell_entries_apart(features, Sqe::Operation(index));
    let state = match waiting {
        Some(waker) => Lifecycle::<D>::Waiting(waker),
        None => Lifecycle::<D>::Submitted,
    };
    let submitted = RingState {
        ops: ring.ops.insert(index, MaybeFdLifecycle { is_fd, state }),
        ..ring
    };
    assert(submitted.reaped(features, cqe).ops.remove(index) =~= ring.ops);
    lemma_single(submitted, features, cqe);
}

/// An operation that is dropped in flight keeps what the kernel may still touch
/// until its completion arrives, and not longer: that completion hands it back and
/// leaves no trace in the table.
pub proof fn law_dropped_operation_keeps_its_data<D>(
    ring: RingState<D>,
    features: Features,
    index: usize,
    is_fd: bool,
    data: Option<D>,
    cqe: Cqe,
)
    requires
        index < MIN_REVERSED_USERDATA,
        !ring.ops.contains_key(index),
        cqe.user_data == Sqe::Operation(index).token(),
        cqe.result > i32::MIN,
    ensures
        ({
            let dropped = RingState {
                ops: ring.ops.insert(
                    index,
                    MaybeFdLifecycle { is_fd, state: Lifecycle::Ignored(data) },
                ),
                ..ring
            };
            &&& dropped.owes(features, cqe)
            &&& dropped.reaped(features, cqe) == ring
            &&& dropped.todo_for(features, seq![cqe]) == seq![
                Completion::Discard { is_fd, meta: meta_of(cqe), data },
            ]
        }),
{
    law_tokens_tell_entries_apart(features, Sqe::Operation(index));
    let dropped = RingState {
        ops: ring.ops.insert(index, MaybeFdLifecycle { is_fd, state: Lifecycle::Ignored(data) }),
        ..ring
    };
    assert(dropped.reaped(features, cqe).ops =~= ring.ops);
    lemma_single(dropped, features, cqe);
}

proof fn lemma_single<D>(ring: RingState<D>, features: Features, cqe: Cqe)
    ensures
        ring.todo_for(features, seq![cqe]) == match token_of(features, cqe.user_data) {
            Token::Operation(index) => seq![completion_of(ring.ops[index], meta_of(cqe))],
            _ => Seq::empty(),
        },
{
    let one = seq![cqe];
    assert(one.drop_last() =~= Seq::<Cqe>::empty());
    assert(ring.todo_for(features, one.drop_last()) =~= Seq::<Completion<D>>::empty());
    assert(ring.reaped_all(features, one.drop_last()) == ring);
    assert(one.last() == cqe);
}

/// A completion that does not belong to an operation leaves the operations alone.
pub proof fn law_ring_entries_leave_operations_alone<D>(
    ring: RingState<D>,
    features: Features,
    cqe: Cqe,
)
    requires
        cqe.user_data >= MIN_REVERSED_USERDATA,
    ensures
        ring.reaped(features, cqe).ops == ring.ops,
{
}

/// Reaping in pieces is the same as reaping at once: a walk that stops for the
/// readiness poller and goes on afterwards loses nothing and does nothing twice.
pub proof fn law_reaping_in_pieces<D>(
    ring: RingState<D>,
    features: Features,
    first: Seq<Cqe>,
    rest: Seq<Cqe>,
)
    ensures
        ring.reaped_all(features, first + rest) == ring.reaped_all(features, first).reaped_all(
            features,
            rest,
        ),
        ring.todo_for(features, first + rest) == ring.todo_for(features, first) + ring.reaped_all(
            features,
            first,
        ).todo_for(features, rest),
    decreases rest.len(),
{
    if rest.len() == 0 {
        assert(first + rest =~= first);
    } else {
        law_reaping_in_pieces(ring, features, first, rest.drop_last());
        assert((first + rest).drop_last() =~= first + rest.drop_last());
        assert((first + rest).last() == rest.last());
    }
}

/// The submission loop over a series of submissions: what it returns.
pub open spec fn submit_loop(
    features: Features,
    errnos: Errnos,
    tries: Seq<Result<usize, SubmitError>>,
) -> SubmitDo
    decreases tries.len(),
{
    if tries.len() == 0 {
        submit_next(features, errnos, SubmitSeen::Start)
    } else {
        match submit_next(features, errnos, SubmitSeen::Submitted(tries[0])) {
            SubmitDo::Tick => submit_loop(features, errnos, tries.skip(1)),
            over => over,
        }
    }
}

/// A ring that cannot take entries just now is tried again and again, and the
/// first answer that is not of that kind is the result.
pub proof fn law_submission_retries_until_settled(
    features: Features,
    errnos: Errnos,
    tries: Seq<Result<usize, SubmitError>>,
    settled: Result<usize, SubmitError>,
)
    requires
        forall|i: int|
            0 <= i < tries.len() ==> (#[trigger] tries[i] matches Err(e) && is_to_be_retried(
                features,
                errnos,
                e,
            )),
        settled matches Err(e) ==> !is_to_be_retried(features, errnos, e),
    ensures
        submit_loop(features, errnos, tries) == SubmitDo::Submit,
        submit_loop(features, errnos, tries.push(settled)) == SubmitDo::Return(
            match settled {
                Ok(_) => Ok(()),
                Err(e) => Err(e.error),
            },
        ),
    decreases tries.len(),
{
    if tries.len() > 0 {
        assert(tries[0] is Err);
        let rest = tries.skip(1);
        assert forall|i: int| 0 <= i < rest.len() implies (#[trigger] rest[i] matches Err(e)
            && is_to_be_retried(features, errnos, e)) by {
            assert(tries[i + 1] is Err);
        }
        law_submission_retries_until_settled(features, errnos, rest, settled);
        assert(tries.push(settled).skip(1) =~= rest.push(settled));
    } else {
        assert(tries.push(settled).skip(1) =~= Seq::empty());
    }
}

/// A run of the submission loop, with everything the host has told it: the
/// submissions and the reaps between them.
pub struct SubmitRun {
    pub features: Features,
    pub errnos: Errnos,
    pub told: Seq<SubmitSeen>,
}

impl SubmitRun {
    /// What the loop does after `k` answers.
    pub open spec fn action(self, k: int) -> SubmitDo {
        if k <= 0 {
            submit_next(self.features, self.errnos, SubmitSeen::Start)
        } else {
            submit_next(self.features, self.errnos, self.told[k - 1])
        }
    }

    /// Whether the host answered every submission and every reap.
    pub open spec fn valid(self) -> bool {
        forall|k: int|
            0 <= k < self.told.len() ==> match self.action(k) {
                SubmitDo::Submit => (#[trigger] self.told[k]) is Submitted,
                SubmitDo::Tick => self.told[k] is Ticked,
                SubmitDo::Return(_) => false,
            }
    }
}

/// Whether a failed submission is one to try again: its error number is one of the
/// two that say so, or, where the kind decides, its kind is.
pub open spec fn ring_is_busy(features: Features, errnos: Errnos, e: SubmitError) -> bool {
    if features.unstable {
        e.kind == FailureKind::Other || e.kind == FailureKind::ResourceBusy
    } else {
        e.error.code == Some(errnos.again) || e.error.code == Some(errnos.busy)
    }
}

/// The submission loop submits first. It reports success only right after a
/// submission that the ring took, and then at once. While the ring is busy it
/// reaps, however much that brings, and submits again. Any other failure, of a
/// submission or of a reap, is what it returns.
pub proof fn law_submission_succeeds_only_when_taken(run: SubmitRun, k: int)
    requires
        run.valid(),
        0 <= k < run.told.len(),
    ensures
        run.action(0) is Submit,
        run.action(k + 1) == SubmitDo::Return(Ok(())) <==> (run.told[k] matches
            SubmitSeen::Submitted(sent) && sent is Ok),
        match run.told[k] {
            SubmitSeen::Start => false,
            SubmitSeen::Submitted(Ok(_)) => run.action(k) is Submit,
            SubmitSeen::Submitted(Err(e)) => run.action(k + 1) == if ring_is_busy(
                run.features,
                run.errnos,
                e,
            ) {
                SubmitDo::Tick
            } else {
                SubmitDo::Return(Err(e.error))
            },
            SubmitSeen::Ticked(Ok(_)) => run.action(k) is Tick && run.action(k + 1) is Submit,
            SubmitSeen::Ticked(Err(e)) => run.action(k + 1) == SubmitDo::Return(Err(e)),
        },
{
    assert(run.action(k) is Submit ==> run.told[k] is Submitted);
}

/// Reaping the wake-up eventfd's read or the readiness poller's wait marks that
/// entry as no longer held, since each completes once, and changes nothing else.
/// No other completion changes a mark.
pub proof fn law_reaped_entries_are_no_longer_held<D>(
    ring: RingState<D>,
    features: Features,
    cqe: Cqe,
)
    ensures
        ({
            let after = ring.reaped(features, cqe);
            let eventfd = features.sync && cqe.user_data == 0xffff_ffff_ffff_fffd;
            let poller = features.poll_io && cqe.user_data == 0xffff_ffff_ffff_fffc;
            &&& eventfd ==> !after.eventfd_installed
            &&& !eventfd ==> after.eventfd_installed == ring.eventfd_installed
            &&& poller ==> !after.poller_installed
            &&& !poller ==> after.poller_installed == ring.poller_installed
            &&& cqe.user_data >= 0xffff_ffff_ffff_fffc ==> after.ops == ring.ops
        }),
        Sqe::ReadEventfd.token() == 0xffff_ffff_ffff_fffd,
        Sqe::PollPoller.token() == 0xffff_ffff_ffff_fffc,
{
}

/// Whether one of the completions carries this token.
pub open spec fn among(cqes: Seq<Cqe>, token: u64) -> bool {
    exists|i: int| 0 <= i < cqes.len() && (#[trigger] cqes[i]).user_data == token
}

/// Reaping a whole series changes the marks exactly if the series holds their
/// completions: afterwards the ring holds an entry that it held before and whose
/// completion was not among them.
pub proof fn law_marks_after_a_series<D>(ring: RingState<D>, features: Features, cqes: Seq<Cqe>)
    ensures
        ring.reaped_all(features, cqes).eventfd_installed <==> ring.eventfd_installed && !(
        features.sync && among(cqes, 0xffff_ffff_ffff_fffd)),
        ring.reaped_all(features, cqes).poller_installed <==> ring.poller_installed && !(
        features.poll_io && among(cqes, 0xffff_ffff_ffff_fffc)),
    decreases cqes.len(),
{
    if cqes.len() > 0 {
        let init = cqes.drop_last();
        law_marks_after_a_series(ring, features, init);
        law_reaped_entries_are_no_longer_held(
            ring.reaped_all(features, init),
            features,
            cqes.last(),
        );
        lemma_among(cqes, 0xffff_ffff_ffff_fffd);
        lemma_among(cqes, 0xffff_ffff_ffff_fffc);
    }
}

proof fn lemma_among(cqes: Seq<Cqe>, token: u64)
    requires
        cqes.len() > 0,
    ensures
        among(cqes, token) <==> cqes.last().user_data == token || among(cqes.drop_last(), token),
{
    let init = cqes.drop_last();
    if among(cqes, token) {
        let i = choose|i: int| 0 <= i < cqes.len() && (#[trigger] cqes[i]).user_data == token;
        if i < init.len() {
            assert(init[i].user_data == token);
        }
    }
    if among(init, token) {
        let i = choose|i: int| 0 <= i < init.len() && (#[trigger] init[i]).user_data == token;
        assert(cqes[i].user_data == token);
    }
    assert(cqes[cqes.len() - 1] == cqes.last());
}

/// What a completion of an operation does, in full. Its report is the number it
/// brings, a count if it is not negative and the error it negates otherwise, with
/// its flags. An operation whose owner is gone leaves the table and its data is
/// handed back; any other holds the report, keeps whether it is a descriptor, and
/// its waiting task is woken. No other operation changes.
pub proof fn law_completion_of_an_operation<D>(
    ring: RingState<D>,
    features: Features,
    index: usize,
    cqe: Cqe,
    other: usize,
)
    requires
        cqe.user_data < 0xffff_ffff_ffff_fffc,
        cqe.user_data == index,
        ring.ops.contains_key(index),
        !(ring.ops[index].state is Completed),
        cqe.result > i32::MIN,
    ensures
        ({
            let after = ring.reaped(features, cqe);
            let todo = ring.todo_for(features, seq![cqe]);
            let meta = CompletionMeta {
                result: if cqe.result >= 0 {
                    Ok(cqe.result as u32)
                } else {
                    Err(OsError { code: Some((0 - cqe.result) as i32) })
                },
                flags: cqe.flags,
            };
            &&& ring.owes(features, cqe)
            &&& ring.reaped_all(features, seq![cqe]) == after
            &&& todo.len() == 1
            &&& after.ops.contains_key(index) <==> !(ring.ops[index].state is Ignored)
            &&& match ring.ops[index].state {
                Lifecycle::Ignored(data) => todo[0] == (Completion::Discard {
                    is_fd: ring.ops[index].is_fd,
                    meta,
                    data,
                }),
                waiting => {
                    &&& after.ops[index].state == Lifecycle::<D>::Completed(meta)
                    &&& after.ops[index].is_fd == ring.ops[index].is_fd
                    &&& match waiting {
                        Lifecycle::Waiting(waker) => todo[0] == Completion::<D>::Wake(waker),
                        _ => todo[0] is Stored,
                    }
                },
            }
            &&& other != index ==> {
                &&& after.ops.contains_key(other) <==> ring.ops.contains_key(other)
                &&& after.ops[other] == ring.ops[other]
            }
        }),
{
    lemma_single(ring, features, cqe);
    let one = seq![cqe];
    assert(one.drop_last() =~= Seq::<Cqe>::empty());
    assert(one.last() == cqe);
    assert(ring.reaped_all(features, one.drop_last()) == ring);
}

/// Nothing is owed but the ring's own entries and one completion for each operation
/// in flight, and the entries of the ring's own ask nothing of the host.
pub proof fn law_what_the_ring_owes<D>(ring: RingState<D>, features: Features, cqe: Cqe)
    ensures
        ring.owes(features, cqe) <==> {
            ||| cqe.user_data >= 0xffff_ffff_ffff_fffc
            ||| {
                &&& ring.ops.contains_key(cqe.user_data as usize)
                &&& !(ring.ops[cqe.user_data as usize].state is Completed)
                &&& cqe.result > i32::MIN
            }
        },
        cqe.user_data >= 0xffff_ffff_ffff_fffc ==> ring.todo_for(features, seq![cqe]).len() == 0,
        ring.reaped_all(features, Seq::empty()) == ring,
        ring.todo_for(features, Seq::empty()).len() == 0,
        ring.reaped_all(features, seq![cqe]) == ring.reaped(features, cqe),
{
    lemma_single(ring, features, cqe);
    let one = seq![cqe];
    assert(one.drop_last() =~= Seq::<Cqe>::empty());
    assert(one.last() == cqe);
    assert(ring.reaped_all(features, one.drop_last()) == ring);
}

/// The numbers of the tokens: the two of the ring's own that mean something, where
/// the driver has the part that they belong to, the other reserved ones, and below
/// them the operations.
pub proof fn law_token_numbers(features: Features, user_data: u64)
    ensures
        token_of(features, user_data) is Eventfd <==> features.sync && user_data
            == 0xffff_ffff_ffff_fffd,
        token_of(features, user_data) is Poller <==> features.poll_io && user_data
            == 0xffff_ffff_ffff_fffc,
        token_of(features, user_data) is Operation <==> user_data < 0xffff_ffff_ffff_fffc,
        token_of(features, user_data) matches Token::Operation(index) ==> index
            == user_data as usize,
{
}

/// What stays the same while the state changes is all the rest of the ring.
pub proof fn law_setup_is_all_but_the_state<D>(one: &UringInner<D>, other: &UringInner<D>)
    requires
        one.same_setup(other),
    ensures
        one.spec_features() == other.spec_features(),
        one.spec_errnos() == other.spec_errnos(),
        one.spec_ext_arg() == other.spec_ext_arg(),
        one.receiver() == other.receiver(),
{
}

} // verus!
