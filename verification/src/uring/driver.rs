//! The driver: a ring's shared state and the way it parks.

use vstd::prelude::*;

use crate::client_gate::{client_in_flight, ClientGate};
use crate::uring::entry::{Features, Sqe, Timespec};
use crate::uring::inner::{RingState, UringInner};
use crate::uring::ops::MaybeFdLifecycle;
use crate::uring::park::{answers, Around, Park, ParkConfig, ParkDo, ParkPhase, ParkSeen};
use crate::wakers::{waker_channel, WakerReceiver, WakerSender};

verus! {

/// How many entries a ring has where nothing else is asked for.
pub const DEFAULT_ENTRIES: u32 = 1024;

/// The driver of one ring.
#[derive(Debug)]
pub struct IoUringDriver<D> {
    /// What the driver shares with its operations.
    pub inner: UringInner<D>,
    /// How long to spin on the completion queue before sleeping, in microseconds.
    pub poll_spin_us: Option<u64>,
    /// Whether the reactor returns without blocking while it makes progress.
    pub poll_reactor: bool,
    /// Whether that reactor spins only while a client request is in flight. No
    /// effect unless `poll_reactor` is on.
    pub poll_reactor_client_gated: bool,
    /// The thread the driver belongs to.
    pub thread_id: usize,
}

impl<D> IoUringDriver<D> {
    /// The driver's invariant: that of what it shares.
    pub open spec fn wf(&self) -> bool {
        self.inner.wf()
    }

    /// What a park of this driver depends on throughout.
    pub open spec fn park_config(&self, timeout: Option<Timespec>) -> ParkConfig {
        ParkConfig {
            features: self.inner.spec_features(),
            errnos: self.inner.spec_errnos(),
            ext_arg: self.inner.spec_ext_arg(),
            poll_spin_us: self.poll_spin_us,
            poll_reactor: self.poll_reactor,
            poll_reactor_client_gated: self.poll_reactor_client_gated,
            timeout,
        }
    }

    /// What a park of this driver finds around it at the moment.
    pub open spec fn around(&self, gate: &ClientGate) -> Around {
        Around {
            eventfd_installed: self.inner.state().eventfd_installed,
            poller_installed: self.inner.state().poller_installed,
            client_in_flight: gate@ > 0,
        }
    }

    /// A driver of the blocking reactor that never spins.
    pub fn new(features: Features, ext_arg: bool, thread_id: usize) -> (made: (
        IoUringDriver<D>,
        Option<WakerSender>,
    ))
        ensures
            made.0.wf(),
            made.0.inner.state() == RingState::<D>::initial(),
            made.0.inner.state().ops == Map::<usize, MaybeFdLifecycle<D>>::empty(),
            !made.0.inner.state().eventfd_installed,
            !made.0.inner.state().poller_installed,
            made.0.inner.spec_features() == features,
            made.0.inner.spec_ext_arg() == ext_arg,
            made.0.inner.spec_errnos().again == 11,
            made.0.inner.spec_errnos().busy == 16,
            made.0.inner.spec_errnos().time == 62 || made.0.inner.spec_errnos().time == 73,
            made.0.poll_spin_us is None,
            !made.0.poll_reactor,
            !made.0.poll_reactor_client_gated,
            made.0.thread_id == thread_id,
            features.sync <==> made.0.inner.receiver() is Some,
            features.sync <==> made.1 is Some,
            features.sync ==> made.1->0.feeds(made.0.inner.receiver()->0),
    {
        Self::new_with_entries(features, ext_arg, None, false, false, thread_id)
    }

    /// A driver of a ring that was just built. `ext_arg` tells whether a wait on
    /// that ring can carry its own timeout. Where other threads may wake this one,
    /// the end at which they hand their wakers in comes with it.
    pub fn new_with_entries(
        features: Features,
        ext_arg: bool,
        poll_spin_us: Option<u64>,
        poll_reactor: bool,
        poll_reactor_client_gated: bool,
        thread_id: usize,
    ) -> (made: (IoUringDriver<D>, Option<WakerSender>))
        ensures
            made.0.wf(),
            made.0.inner.state() == RingState::<D>::initial(),
            made.0.inner.state().ops == Map::<usize, MaybeFdLifecycle<D>>::empty(),
            !made.0.inner.state().eventfd_installed,
            !made.0.inner.state().poller_installed,
            made.0.inner.spec_features() == features,
            made.0.inner.spec_ext_arg() == ext_arg,
            made.0.inner.spec_errnos().again == 11,
            made.0.inner.spec_errnos().busy == 16,
            made.0.inner.spec_errnos().time == 62 || made.0.inner.spec_errnos().time == 73,
            made.0.poll_spin_us == poll_spin_us,
            made.0.poll_reactor == poll_reactor,
            made.0.poll_reactor_client_gated == poll_reactor_client_gated,
            made.0.thread_id == thread_id,
            features.sync <==> made.0.inner.receiver() is Some,
            features.sync <==> made.1 is Some,
            features.sync ==> made.1->0.feeds(made.0.inner.receiver()->0),
    {
        let mut sender: Option<WakerSender> = None;
        let mut receiver: Option<WakerReceiver> = None;
        if features.sync {
            let (tx, rx) = waker_channel();
            sender = Some(tx);
            receiver = Some(rx);
        }
        let driver = IoUringDriver {
            inner: UringInner::new(features, ext_arg, receiver),
            poll_spin_us,
            poll_reactor,
            poll_reactor_client_gated,
            thread_id,
        };
        (driver, sender)
    }

    /// The number of operations.
    pub fn num_operations(&self) -> (n: usize)
        requires
            self.wf(),
        ensures
            n == self.inner.state().ops.dom().len(),
    {
        self.inner.num_operations()
    }

    fn look_around(&self, gate: &ClientGate) -> (around: Around)
        ensures
            around == self.around(gate),
    {
        Around {
            eventfd_installed: self.inner.eventfd_installed(),
            poller_installed: self.inner.poller_installed(),
            client_in_flight: client_in_flight(gate),
        }
    }

    fn config(&self, timeout: Option<Timespec>) -> (config: ParkConfig)
        ensures
            config == self.park_config(timeout),
    {
        ParkConfig {
            features: self.inner.features(),
            errnos: self.inner.errnos(),
            ext_arg: self.inner.ext_arg(),
            poll_spin_us: self.poll_spin_us,
            poll_reactor: self.poll_reactor,
            poll_reactor_client_gated: self.poll_reactor_client_gated,
            timeout,
        }
    }

    /// Queues nothing and waits for nothing: begins to submit and reap.
    pub fn submit(&self) -> (park: Park)
        ensures
            park.spec_config() == self.park_config(None),
            park.spec_phase() == ParkPhase::LastSubmit,
    {
        Park::submitting(self.config(None))
    }

    /// Begins a park without a time limit.
    pub fn park(&self, gate: &ClientGate) -> (park: Park)
        ensures
            park.spec_config() == self.park_config(None),
            park.spec_phase() == self.park_config(None).first(self.around(gate)),
    {
        self.inner_park(None, gate)
    }

    /// Begins a park that sleeps no longer than `duration`.
    pub fn park_timeout(&self, duration: Timespec, gate: &ClientGate) -> (park: Park)
        ensures
            park.spec_config() == self.park_config(Some(duration)),
            park.spec_phase() == self.park_config(Some(duration)).first(self.around(gate)),
    {
        self.inner_park(Some(duration), gate)
    }

    /// Begins a park.
    pub fn inner_park(&self, timeout: Option<Timespec>, gate: &ClientGate) -> (park: Park)
        ensures
            park.spec_config() == self.park_config(timeout),
            park.spec_phase() == self.park_config(timeout).first(self.around(gate)),
    {
        Park::new(self.config(timeout), self.look_around(gate))
    }

    /// Tells a park what its action brought, and gives the next action.
    ///
    /// Asking for one of the ring's own entries to be queued records that it is.
    pub fn advance(&mut self, park: &mut Park, gate: &ClientGate, seen: ParkSeen) -> (action:
        ParkDo)
        requires
            old(self).wf(),
            answers(old(park).spec_phase().action(), seen),
        ensures
            final(park).spec_config() == old(park).spec_config(),
            final(park).spec_phase() == old(park).spec_config().next(
                old(self).around(gate),
                old(park).spec_phase(),
                seen,
            ),
            action == final(park).spec_phase().action(),
            final(self).noted(old(self), final(park).spec_phase()),
    {
        let around = self.look_around(gate);
        let action = park.advance(around, seen);
        match action {
            ParkDo::Push(Sqe::PollPoller) => {
                let _ = self.inner.install_poller();
            },
            ParkDo::Push(Sqe::ReadEventfd) => {
                let _ = self.inner.install_eventfd();
            },
            _ => {},
        }
        action
    }

    /// This is `before`, but for the record of an entry that a park in `phase`
    /// asks to be queued.
    pub open spec fn noted(&self, before: &IoUringDriver<D>, phase: ParkPhase) -> bool {
        &&& self.wf()
        &&& self.inner.same_setup(&before.inner)
        &&& self.poll_spin_us == before.poll_spin_us
        &&& self.poll_reactor == before.poll_reactor
        &&& self.poll_reactor_client_gated == before.poll_reactor_client_gated
        &&& self.thread_id == before.thread_id
        &&& self.inner.state() == match phase {
            ParkPhase::PushPoller => RingState {
                poller_installed: true,
                ..before.inner.state()
            },
            ParkPhase::PushEventfd => RingState {
                eventfd_installed: true,
                ..before.inner.state()
            },
            _ => before.inner.state(),
        }
    }
}

} // verus!
