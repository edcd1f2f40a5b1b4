//! Per-shard client-request-in-flight gate.
//!
//! The host raises a counter around the window in which a client request is
//! being processed on its shard, and the poll-reactor reads it to decide whether
//! its speculative idle spin is worth running. A shard is single-threaded, so
//! a plain integer owned by that shard's thread is enough.

use vstd::prelude::*;

verus! {

/// The number of client requests in flight on one shard.
#[derive(Debug)]
pub struct ClientGate {
    in_flight: u32,
}

impl View for ClientGate {
    type V = nat;

    closed spec fn view(&self) -> nat {
        self.in_flight as nat
    }
}

impl ClientGate {
    /// A gate with no client request in flight.
    pub fn new() -> (gate: ClientGate)
        ensures
            gate@ == 0,
    {
        ClientGate { in_flight: 0 }
    }

    /// The number of client requests in flight.
    pub fn count(&self) -> (n: u32)
        ensures
            n == self@,
    {
        self.in_flight
    }
}

/// Marks that a client request has entered processing on this shard.
///
/// Pairs with [`client_request_end`]. While the counter is raised, the poll-reactor's
/// speculative idle spin is permitted even when client-gating is enabled.
pub fn client_request_begin(gate: &mut ClientGate)
    requires
        old(gate)@ < u32::MAX,
    ensures
        final(gate)@ == old(gate)@ + 1,
{
    gate.in_flight = gate.in_flight + 1;
}

/// Marks that a client request has finished processing on this shard.
///
/// An unbalanced extra end leaves the counter at zero, it never wraps.
pub fn client_request_end(gate: &mut ClientGate)
    ensures
        final(gate)@ == if old(gate)@ == 0 { 0 } else { (old(gate)@ - 1) as nat },
{
    gate.in_flight = gate.in_flight.saturating_sub(1);
}

/// Whether at least one client request is currently in flight on this shard.
pub fn client_in_flight(gate: &ClientGate) -> (b: bool)
    ensures
        b == (gate@ > 0),
{
    gate.in_flight > 0
}

/// When the poll-reactor skips its speculative idle spin: gating is enabled and
/// no client request is in flight.
pub open spec fn gate_shut(client_gated: bool, client_in_flight: bool) -> bool {
    client_gated && !client_in_flight
}

/// Whether the poll-reactor must skip its speculative idle spin, given whether a
/// client request is in flight.
pub fn is_gate_shut(client_gated: bool, client_in_flight: bool) -> (b: bool)
    ensures
        b == gate_shut(client_gated, client_in_flight),
        b <==> client_gated && !client_in_flight,
{
    client_gated && !client_in_flight
}

/// Whether the poll-reactor of this shard must skip its speculative idle spin.
pub fn gated_out(client_gated: bool, gate: &ClientGate) -> (b: bool)
    ensures
        b == gate_shut(client_gated, gate@ > 0),
        b <==> client_gated && gate@ == 0,
{
    is_gate_shut(client_gated, client_in_flight(gate))
}

/// The counter after a series of begins (`true`) and ends (`false`).
pub open spec fn gate_after(start: nat, calls: Seq<bool>) -> nat
    decreases calls.len(),
{
    if calls.len() == 0 {
        start
    } else {
        let before = gate_after(start, calls.drop_last());
        if calls.last() {
            before + 1
        } else if before == 0 {
            0
        } else {
            (before - 1) as nat
        }
    }
}

/// How many of `calls` are equal to `which`.
pub open spec fn calls_of(calls: Seq<bool>, which: bool) -> nat
    decreases calls.len(),
{
    if calls.len() == 0 {
        0
    } else {
        calls_of(calls.drop_last(), which) + if calls.last() == which { 1nat } else { 0nat }
    }
}

/// A series of calls that never ends more requests than were in flight leaves
/// exactly the difference: paired begins and ends return the counter to its start.
pub proof fn law_paired_calls_balance(start: nat, calls: Seq<bool>)
    requires
        forall|k: int|
            0 <= k <= calls.len() ==> #[trigger] calls_of(calls.take(k), false) <= start + calls_of(
                calls.take(k),
                true,
            ),
    ensures
        gate_after(start, calls) == start + calls_of(calls, true) - calls_of(calls, false),
    decreases calls.len(),
{
    if calls.len() > 0 {
        let init = calls.drop_last();
        assert(calls.take(calls.len() as int) =~= calls);
        assert forall|k: int| 0 <= k <= init.len() implies #[trigger] calls_of(init.take(k), false)
            <= start + calls_of(init.take(k), true) by {
            assert(init.take(k) =~= calls.take(k));
        }
        law_paired_calls_balance(start, init);
    }
}

/// However unbalanced the calls, the counter never holds more than it started with
/// plus the begins: an extra end is absorbed.
pub proof fn law_extra_ends_are_absorbed(start: nat, calls: Seq<bool>)
    ensures
        gate_after(start, calls) <= start + calls_of(calls, true),
    decreases calls.len(),
{
    if calls.len() > 0 {
        law_extra_ends_are_absorbed(start, calls.drop_last());
    }
}

} // verus!
