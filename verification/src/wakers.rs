//! The channel through which other threads hand wakers to a shard.

use std::task::Waker;

use vstd::prelude::*;

verus! {

/// `std::task::Waker`, carried opaquely.
#[verifier::external_type_specification]
#[verifier::external_body]
pub struct ExWaker(Waker);

/// `flume::Sender`, carried opaquely.
#[verifier::external_type_specification]
#[verifier::external_body]
#[verifier::reject_recursive_types(T)]
pub struct ExSender<T>(flume::Sender<T>);

/// `flume::Receiver`, carried opaquely.
#[verifier::external_type_specification]
#[verifier::external_body]
#[verifier::reject_recursive_types(T)]
pub struct ExReceiver<T>(flume::Receiver<T>);

/// How many wakers the channel behind `sender` was made to hold at most, if it
/// was made with such a limit.
pub uninterp spec fn channel_limit(sender: flume::Sender<Waker>) -> Option<usize>;

/// Whether what is sent into `sender` comes out of `receiver`: whether they are
/// the two ends of one channel.
pub uninterp spec fn same_channel(
    sender: flume::Sender<Waker>,
    receiver: flume::Receiver<Waker>,
) -> bool;

/// The wakers that the channel which ends in `receiver` takes in over its whole
/// life. Which they are is for the threads to say that send them.
pub uninterp spec fn taken_in(receiver: flume::Receiver<Waker>) -> Set<Waker>;

/// Whether the channel behind `sender` is at some time left without a receiver.
/// When that is, if ever, is for the thread to say that holds the receiver.
pub uninterp spec fn loses_receiver(sender: flume::Sender<Waker>) -> bool;

/// Calls `flume::unbounded`. What it makes are the two ends of one channel, and
/// that channel has no limit.
#[verifier::external_body]
fn flume_unbounded() -> (ends: (flume::Sender<Waker>, flume::Receiver<Waker>))
    ensures
        channel_limit(ends.0) is None,
        same_channel(ends.0, ends.1),
{
    flume::unbounded()
}

/// Calls `flume::Sender::clone`. The copy feeds the same channel, so it has the
/// same limit, the same other end and the same fate.
#[verifier::external_body]
fn flume_clone(sender: &flume::Sender<Waker>) -> (copy: flume::Sender<Waker>)
    ensures
        channel_limit(copy) == channel_limit(*sender),
        loses_receiver(copy) == loses_receiver(*sender),
        forall|receiver: flume::Receiver<Waker>|
            same_channel(copy, receiver) == #[trigger] same_channel(*sender, receiver),
{
    sender.clone()
}

/// Calls `flume::Sender::send` on a channel without a limit, where it does not
/// block. Where it succeeds the channel has taken the waker in. It fails only when
/// the receiver is gone, and then hands the waker back. Whether the receiver is gone
/// by now is for the thread to say that holds it, so no success is claimed.
#[verifier::external_body]
fn flume_send(sender: &flume::Sender<Waker>, waker: Waker) -> (sent: Result<(), Waker>)
    requires
        channel_limit(*sender) is None,
    ensures
        sent is Ok ==> forall|receiver: flume::Receiver<Waker>| #[trigger]
            same_channel(*sender, receiver) ==> taken_in(receiver).contains(waker),
        sent matches Err(back) ==> back == waker && loses_receiver(*sender),
{
    sender.send(waker).map_err(|e| e.into_inner())
}

/// Calls `flume::Receiver::try_recv`. A waker that comes out is one that the
/// channel took in. Whether one is there depends on what the other threads sent, so
/// nothing is claimed of when one comes out.
#[verifier::external_body]
fn flume_try_recv(receiver: &flume::Receiver<Waker>) -> (waker: Option<Waker>)
    ensures
        waker matches Some(w) ==> taken_in(*receiver).contains(w),
{
    receiver.try_recv().ok()
}

/// The end at which other threads hand wakers in. It never blocks.
#[derive(Debug)]
pub struct WakerSender {
    sender: flume::Sender<Waker>,
}

/// The end at which the shard takes them out.
#[derive(Debug)]
pub struct WakerReceiver {
    receiver: flume::Receiver<Waker>,
}

impl WakerSender {
    #[verifier::type_invariant]
    spec fn never_blocks(self) -> bool {
        channel_limit(self.sender) is None
    }

    /// Whether the wakers handed in here come out of `receiver`.
    pub closed spec fn feeds(self, receiver: WakerReceiver) -> bool {
        same_channel(self.sender, receiver.receiver)
    }

    /// Whether the shard at the other end stops receiving at some time.
    pub closed spec fn abandoned(self) -> bool {
        loses_receiver(self.sender)
    }

    /// Hands a waker to the shard at the other end. When that shard is gone the
    /// waker comes back.
    pub fn send(&self, waker: Waker) -> (sent: Result<(), Waker>)
        ensures
            sent is Ok ==> forall|receiver: WakerReceiver| #[trigger]
                self.feeds(receiver) ==> receiver.handed_in().contains(waker),
            sent matches Err(back) ==> back == waker && self.abandoned(),
    {
        proof {
            use_type_invariant(self);
        }
        flume_send(&self.sender, waker)
    }

    /// Another handle on the same channel.
    pub fn duplicate(&self) -> (copy: WakerSender)
        ensures
            copy.abandoned() == self.abandoned(),
            forall|receiver: WakerReceiver| copy.feeds(receiver) == #[trigger] self.feeds(receiver),
    {
        proof {
            use_type_invariant(self);
        }
        WakerSender { sender: flume_clone(&self.sender) }
    }
}

impl WakerReceiver {
    /// The wakers that are handed in at the other end, ever.
    pub closed spec fn handed_in(self) -> Set<Waker> {
        taken_in(self.receiver)
    }

    /// Takes one waker out, if another thread has sent one.
    pub fn try_recv(&self) -> (waker: Option<Waker>)
        ensures
            waker matches Some(w) ==> self.handed_in().contains(w),
    {
        flume_try_recv(&self.receiver)
    }
}

/// Makes the waker channel of one shard.
pub fn waker_channel() -> (ends: (WakerSender, WakerReceiver))
    ensures
        ends.0.feeds(ends.1),
{
    let (sender, receiver) = flume_unbounded();
    (WakerSender { sender }, WakerReceiver { receiver })
}

} // verus!
