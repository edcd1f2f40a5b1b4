//! What holds of the parked-time counter over a park.

use vstd::prelude::*;

use crate::reactor_park::{parked_after, time_between};
use crate::uring::park_laws::{
    blocks, law_every_wait_is_measured, law_only_waits_are_measured, law_park_waits_at_most_once,
    ParkRun,
};

verus! {

/// A park with the clock, in nanoseconds, that it runs against.
pub struct TimedRun {
    pub run: ParkRun,
    /// When each action is begun. One is begun when the one before it is done.
    pub begun: Seq<nat>,
    /// What the clock shows when an action reads it.
    pub shown: Seq<nat>,
}

impl TimedRun {
    /// Whether the host answered every action, and the clock never runs back.
    pub open spec fn valid(self) -> bool {
        &&& self.run.valid()
        &&& self.begun.len() == self.run.moments.len() + 1
        &&& self.shown.len() == self.run.moments.len()
        &&& forall|k: int|
            0 <= k < self.run.moments.len() ==> self.begun[k] <= #[trigger] self.shown[k]
                <= self.begun[k + 1]
    }

    /// What the clock showed when the measurement that runs after `k` exchanges
    /// was opened, if one runs.
    pub open spec fn opened(self, k: int) -> Option<nat>
        decreases k,
    {
        if k <= 0 || self.run.action(k - 1) is ClosePark {
            None
        } else if self.run.action(k - 1) is OpenPark {
            Some(self.shown[k - 1])
        } else {
            self.opened(k - 1)
        }
    }

    /// The counter after `k` exchanges, if it stood at `before` when the park
    /// began: a measurement that is closed adds the time since it was opened, as
    /// [`ParkScope::close`](crate::reactor_park::ParkScope::close) does.
    pub open spec fn parked(self, before: nat, k: int) -> nat
        decreases k,
    {
        if k <= 0 {
            before
        } else if self.run.action(k - 1) is ClosePark {
            match self.opened(k - 1) {
                Some(opened) => parked_after(
                    self.parked(before, k - 1),
                    time_between(opened, self.shown[k - 1]),
                ),
                None => self.parked(before, k - 1),
            }
        } else {
            self.parked(before, k - 1)
        }
    }
}

/// Exchanges that close no measurement leave the counter alone.
proof fn lemma_untouched(timed: TimedRun, before: nat, i: int, j: int)
    requires
        0 <= i <= j,
        forall|k: int| i <= k < j ==> !(#[trigger] timed.run.action(k) is ClosePark),
    ensures
        timed.parked(before, j) == timed.parked(before, i),
    decreases j,
{
    if i < j {
        assert(!(timed.run.action(j - 1) is ClosePark));
        lemma_untouched(timed, before, i, j - 1);
    }
}

/// A park that does not wait, but only spins or submits, leaves the counter as it
/// was.
pub proof fn law_nothing_is_counted_without_a_wait(timed: TimedRun, before: nat, j: int)
    requires
        timed.valid(),
        0 <= j <= timed.run.moments.len(),
        forall|k: int| 0 <= k < j ==> !blocks(#[trigger] timed.run.action(k)),
    ensures
        timed.parked(before, j) == before,
{
    assert forall|k: int| 0 <= k < j implies !(#[trigger] timed.run.action(k) is ClosePark) by {
        law_only_waits_are_measured(timed.run, k);
        if k > 0 {
            assert(!blocks(timed.run.action(k - 1)));
        }
    }
    lemma_untouched(timed, before, 0, j);
}

/// A park that waits adds one measurement to the counter, whether it returns a
/// success or an error. That measurement takes in the whole of the wait, so the
/// counter grows by at least the time blocked, as far as it can hold it; and it
/// takes in nothing but the wait and the actions on either side of it.
///
/// Only a measurement of more than 64 bits may fall short of the time blocked: it
/// is cut to its low 64 bits.
pub proof fn law_blocked_time_is_counted(timed: TimedRun, before: nat, w: int, j: int)
    requires
        timed.valid(),
        before <= u64::MAX,
        0 <= w < j <= timed.run.moments.len(),
        blocks(timed.run.action(w)),
        timed.run.action(j) is Return,
    ensures
        exists|o: int| #[trigger] measured_from(timed, o, w),
        forall|o: int| #[trigger]
            measured_from(timed, o, w) ==> {
                let measured = timed.shown[w + 1] - timed.shown[o];
                let blocked = timed.begun[w + 1] - timed.begun[w];
                &&& 0 <= blocked <= measured
                &&& timed.parked(before, j) == parked_after(before, measured as nat)
                &&& measured <= u64::MAX && before + blocked <= u64::MAX ==> timed.parked(before, j)
                    >= before + blocked
            },
{
    let run = timed.run;
    law_every_wait_is_measured(run, w);
    assert(run.action(w + 1) is ClosePark);
    assert(w + 1 < j);
    let o = if run.action(w - 1) is OpenPark {
        w - 1
    } else {
        w - 2
    };
    assert(measured_from(timed, o, w));
    assert(timed.opened(o + 1) == Some(timed.shown[o]));
    assert(timed.opened(w) == Some(timed.shown[o]));
    assert(timed.opened(w + 1) == Some(timed.shown[o]));
    assert forall|k: int| 0 <= k < w + 1 implies !(#[trigger] run.action(k) is ClosePark) by {
        if run.action(k) is ClosePark && k < w {
            law_park_waits_at_most_once(run, k, w);
        }
    }
    lemma_untouched(timed, before, 0, w + 1);
    assert forall|k: int| w + 2 <= k < j implies !(#[trigger] run.action(k) is ClosePark) by {
        law_park_waits_at_most_once(run, w + 1, k);
    }
    lemma_untouched(timed, before, w + 2, j);
    lemma_clock(timed, 0, o);
    lemma_clock(timed, o + 1, w);
    lemma_clock(timed, w + 2, j);
    assert(timed.begun[o] <= timed.shown[o] <= timed.begun[o + 1]);
    assert(timed.begun[w] <= timed.shown[w] <= timed.begun[w + 1]);
    assert(timed.begun[w + 1] <= timed.shown[w + 1] <= timed.begun[w + 2]);
}

/// Whether the measurement around the wait at `w` was opened at `o`: just before
/// it, with at most the entry of its timeout in between.
pub open spec fn measured_from(timed: TimedRun, o: int, w: int) -> bool {
    &&& 0 <= o
    &&& timed.run.action(o) is OpenPark
    &&& o == w - 1 || (o == w - 2 && timed.run.action(w - 1) is Push)
}

/// The clock never runs back.
proof fn lemma_clock(timed: TimedRun, i: int, j: int)
    requires
        timed.valid(),
        0 <= i <= j <= timed.run.moments.len(),
    ensures
        timed.begun[i] <= timed.begun[j],
    decreases j,
{
    if i < j {
        lemma_clock(timed, i, j - 1);
        assert(timed.begun[j - 1] <= timed.shown[j - 1] <= timed.begun[j]);
    }
}

} // verus!
