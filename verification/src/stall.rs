//! The reactor stall detector.
//!
//! A shard may register a callback that is told of every task poll that took at
//! least a threshold of milliseconds. Polls are timed only while a callback is
//! registered.

use vstd::prelude::*;

use crate::reactor_park::low_64;

verus! {

/// A stall, as told to the callback.
#[derive(Clone, Copy, Debug, PartialEq, Eq, Structural)]
pub struct StallEvent {
    /// Duration of the stalling poll in milliseconds.
    pub duration_ms: u64,
}

/// The stall callback of one shard, with its threshold in milliseconds.
///
/// The callback is called inline from the reactor loop. It must be cheap, and it
/// must never block or yield.
#[derive(Debug)]
pub struct StallHook<C> {
    hook: Option<(u64, C)>,
}

impl<C> View for StallHook<C> {
    type V = Option<(u64, C)>;

    closed spec fn view(&self) -> Option<(u64, C)> {
        self.hook
    }
}

impl<C> StallHook<C> {
    /// No callback: detection is off.
    pub fn new() -> (hook: StallHook<C>)
        ensures
            hook@ is None,
    {
        StallHook { hook: None }
    }
}

impl<C: Copy> StallHook<C> {
    /// The threshold and the callback to time the next poll for, if any.
    pub fn armed(&self) -> (armed: Option<(u64, C)>)
        ensures
            armed == self@,
    {
        match self.hook {
            Some((threshold_ms, cb)) => Some((threshold_ms, cb)),
            None => None,
        }
    }
}

/// Registers the stall callback of a shard in place of the one it had.
///
/// `threshold_ms` is the least duration of a task poll, in milliseconds, that is
/// told to the callback. 0 turns detection off.
pub fn register_stall_callback<C>(hook: &mut StallHook<C>, threshold_ms: u64, cb: C)
    ensures
        final(hook)@ == if threshold_ms == 0 { None } else { Some((threshold_ms, cb)) },
{
    if threshold_ms == 0 {
        hook.hook = None;
    } else {
        hook.hook = Some((threshold_ms, cb));
    }
}

/// Removes the stall callback of a shard: detection is off.
pub fn unregister_stall_callback<C>(hook: &mut StallHook<C>)
    ensures
        final(hook)@ is None,
{
    hook.hook = None;
}

/// The event to tell a callback with this threshold about after a poll that took
/// `elapsed_millis` milliseconds, if it is to be told.
pub fn stall_event(threshold_ms: u64, elapsed_millis: u128) -> (event: Option<StallEvent>)
    ensures
        event == if low_64(elapsed_millis as nat) >= threshold_ms {
            Some(StallEvent { duration_ms: low_64(elapsed_millis as nat) as u64 })
        } else {
            None
        },
        event is Some <==> elapsed_millis % 0x1_0000_0000_0000_0000 >= threshold_ms,
        event matches Some(told) ==> told.duration_ms == elapsed_millis
            % 0x1_0000_0000_0000_0000,
{
    let elapsed_ms: u64 = #[verifier::truncate]
    (elapsed_millis as u64);
    assert(elapsed_ms == elapsed_millis % 0x1_0000_0000_0000_0000) by (bit_vector)
        requires
            elapsed_ms == elapsed_millis as u64,
    ;
    if elapsed_ms >= threshold_ms {
        Some(StallEvent { duration_ms: elapsed_ms })
    } else {
        None
    }
}

} // verus!
