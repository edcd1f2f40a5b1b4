//! Per-shard reactor "parked" time accounting.
//!
//! A nanosecond counter that accumulates the wall-clock time the reactor spends
//! blocked waiting for the next completion. The host reads it through
//! [`reactor_parked_nanos`] and derives the reactor's utilization from the
//! difference between two readings:
//!
//! ```text
//! parked_fraction = delta reactor_parked_nanos / delta wall_clock_nanos
//! utilization     = 1 - parked_fraction
//! ```
//!
//! A shard is single-threaded, so the counter is a plain integer owned by that
//! shard's thread. It costs one pair of clock readings per park.

use vstd::prelude::*;

verus! {

/// The time one shard's reactor has spent blocked, in nanoseconds.
#[derive(Debug)]
pub struct ReactorPark {
    nanos: u64,
}

impl View for ReactorPark {
    type V = nat;

    closed spec fn view(&self) -> nat {
        self.nanos as nat
    }
}

/// The time between two readings of a clock: none where the clock ran back.
pub open spec fn time_between(opened: nat, closed: nat) -> nat {
    if closed >= opened {
        (closed - opened) as nat
    } else {
        0
    }
}

/// What a span of `nanos` nanoseconds amounts to once it is stored in 64 bits.
pub open spec fn low_64(nanos: nat) -> nat {
    nanos % 0x1_0000_0000_0000_0000
}

/// The counter after a park of `elapsed` nanoseconds: the sum, held at the
/// largest 64-bit value once it gets there.
pub open spec fn parked_after(before: nat, elapsed: nat) -> nat {
    let sum = before + low_64(elapsed);
    if sum <= u64::MAX {
        sum
    } else {
        u64::MAX as nat
    }
}

impl ReactorPark {
    /// A counter at zero.
    pub fn new() -> (park: ReactorPark)
        ensures
            park@ == 0,
    {
        ReactorPark { nanos: 0 }
    }

    /// Adds the duration of one park.
    pub fn accumulate(&mut self, elapsed_nanos: u128)
        ensures
            final(self)@ == parked_after(old(self)@, elapsed_nanos as nat),
            ({
                let sum = old(self)@ + elapsed_nanos % 0x1_0000_0000_0000_0000;
                final(self)@ == if sum < 0x1_0000_0000_0000_0000 {
                    sum
                } else {
                    0xffff_ffff_ffff_ffff
                }
            }),
    {
        let low: u64 = #[verifier::truncate]
        (elapsed_nanos as u64);
        assert(low == elapsed_nanos % 0x1_0000_0000_0000_0000) by (bit_vector)
            requires
                low == elapsed_nanos as u64,
        ;
        self.nanos = self.nanos.saturating_add(low);
    }
}

/// Total nanoseconds this shard's reactor has spent blocked.
///
/// A host polling once a second computes the parked fraction from the difference
/// between two readings divided by the wall-clock time between them.
pub fn reactor_parked_nanos(park: &ReactorPark) -> (nanos: u64)
    ensures
        nanos == park@,
{
    park.nanos
}

/// The running measurement of one park.
///
/// Opened immediately before the blocking call and closed right after it,
/// whether the call succeeded or failed. Both ends are readings, in nanoseconds,
/// of one clock of the host's.
#[must_use]
#[derive(Debug)]
pub struct ParkScope {
    start: u128,
}

impl View for ParkScope {
    type V = nat;

    /// What the clock showed when the measurement was opened.
    closed spec fn view(&self) -> nat {
        self.start as nat
    }
}

impl ParkScope {
    /// Opens a measurement at the present reading of the clock.
    pub fn new(now: u128) -> (scope: ParkScope)
        ensures
            scope@ == now,
    {
        ParkScope { start: now }
    }

    /// Closes the measurement at the present reading of the clock, and adds the
    /// time since it was opened.
    pub fn close(self, now: u128, park: &mut ReactorPark)
        ensures
            final(park)@ == parked_after(old(park)@, time_between(self@, now as nat)),
            now <= self@ ==> final(park)@ == old(park)@,
            now >= self@ && old(park)@ + (now - self@) < 0x1_0000_0000_0000_0000 ==> final(park)@
                == old(park)@ + (now - self@),
            now >= self@ && now - self@ < 0x1_0000_0000_0000_0000 && old(park)@ + (now - self@)
                >= 0x1_0000_0000_0000_0000 ==> final(park)@ == 0xffff_ffff_ffff_ffff,
    {
        park.accumulate(now.saturating_sub(self.start));
    }
}

/// The counter after a series of parks.
pub open spec fn parked_after_all(start: nat, parks: Seq<nat>) -> nat
    decreases parks.len(),
{
    if parks.len() == 0 {
        start
    } else {
        parked_after(parked_after_all(start, parks.drop_last()), parks.last())
    }
}

/// The counter is monotonic across successive parks: after any series of parks
/// it stands at least where it stood after any first part of that series.
pub proof fn law_counter_is_monotonic(start: nat, parks: Seq<nat>, k: int)
    requires
        start <= u64::MAX,
        0 <= k <= parks.len(),
    ensures
        parked_after_all(start, parks.take(k)) <= parked_after_all(start, parks) <= u64::MAX,
    decreases parks.len(),
{
    if k == parks.len() {
        assert(parks.take(k) =~= parks);
        if parks.len() > 0 {
            law_counter_is_monotonic(start, parks.drop_last(), 0);
        }
    } else {
        assert(parks.take(k) =~= parks.drop_last().take(k));
        law_counter_is_monotonic(start, parks.drop_last(), k);
    }
}

/// The counter stays where it is until a park ends, and grows at one that took
/// time, unless it already holds the largest value: it stands higher after any
/// series of parks than before a park of that series for which the clock showed
/// time, as 64 bits hold it.
pub proof fn law_counter_grows_with_time(start: nat, parks: Seq<nat>, k: int)
    requires
        start <= u64::MAX,
        0 <= k < parks.len(),
        low_64(parks[k]) > 0,
        parked_after_all(start, parks.take(k)) < u64::MAX,
    ensures
        parked_after_all(start, Seq::empty()) == start,
        parked_after_all(start, parks) > parked_after_all(start, parks.take(k)),
{
    let through = parks.take(k + 1);
    assert(through.drop_last() =~= parks.take(k));
    assert(through.last() == parks[k]);
    law_counter_is_monotonic(start, parks, k + 1);
}

/// A counter that has not reached the largest value is exactly the sum of the
/// parks: no park is lost or counted twice.
pub proof fn law_counter_is_the_sum(start: nat, parks: Seq<nat>)
    requires
        start <= u64::MAX,
        forall|i: int| 0 <= i < parks.len() ==> #[trigger] parks[i] <= u64::MAX,
        parked_after_all(start, parks) < u64::MAX,
    ensures
        parked_after_all(start, parks) == start + parks.fold_left(0nat, |sum: nat, park: nat| sum + park),
    decreases parks.len(),
{
    if parks.len() > 0 {
        let init = parks.drop_last();
        assert(parks.take(parks.len() - 1) =~= init);
        law_counter_is_monotonic(start, parks, parks.len() - 1);
        assert(parks[parks.len() - 1] <= u64::MAX);
        assert forall|i: int| 0 <= i < init.len() implies #[trigger] init[i] <= u64::MAX by {
            assert(init[i] == parks[i]);
        }
        law_counter_is_the_sum(start, init);
    }
}

} // verus!
