//! The pause between two connection attempts.
//!
//! The pause starts at the floor, doubles after every attempt that delivered
//! nothing, never exceeds the cap, and falls back to the floor as soon as an
//! attempt has delivered at least one trade.

use vstd::arithmetic::power2::{lemma2_to64, pow2};
use vstd::prelude::*;

verus! {

/// Shortest pause between two attempts, in seconds.
pub const BACKOFF_FLOOR_SECS: u64 = 1;

/// Longest pause between two attempts, in seconds.
pub const BACKOFF_CAP_SECS: u64 = 60;

/// The pause taken right after an attempt that delivered `delivered` trades,
/// when the delay stood at `delay` before it.
pub open spec fn pause_after(delay: nat, delivered: nat) -> nat {
    if delivered > 0 {
        BACKOFF_FLOOR_SECS as nat
    } else {
        delay
    }
}

/// The delay in force once that pause is over.
pub open spec fn next_delay(delay: nat, delivered: nat) -> nat {
    if delivered > 0 {
        BACKOFF_FLOOR_SECS as nat
    } else if 2 * delay <= BACKOFF_CAP_SECS {
        2 * delay
    } else {
        BACKOFF_CAP_SECS as nat
    }
}

/// The delay in force after a run of attempts, given how many trades each of
/// them delivered, oldest first.
pub open spec fn delay_after(history: Seq<nat>) -> nat
    decreases history.len(),
{
    if history.len() == 0 {
        BACKOFF_FLOOR_SECS as nat
    } else {
        next_delay(delay_after(history.drop_last()), history.last())
    }
}

/// What the supervisor does once an attempt is over.
#[derive(Clone, Copy, Debug, PartialEq, Eq)]
pub struct Retry {
    /// How long to sleep before the next attempt, in seconds.
    pub pause_secs: u64,
    /// Whether the attempt delivered a trade, which resets the delay.
    pub productive: bool,
}

/// The backoff state of a reconnecting supervisor.
pub struct Backoff {
    delay_secs: u64,
}

impl Backoff {
    #[verifier::type_invariant]
    spec fn within_bounds(self) -> bool {
        BACKOFF_FLOOR_SECS <= self.delay_secs <= BACKOFF_CAP_SECS
    }

    /// The current delay, in seconds.
    pub closed spec fn delay(self) -> nat {
        self.delay_secs as nat
    }

    /// A cold start: the delay is the floor.
    pub fn new() -> (backoff: Backoff)
        ensures
            backoff.delay() == BACKOFF_FLOOR_SECS,
    {
        Backoff { delay_secs: BACKOFF_FLOOR_SECS }
    }

    /// The current delay, in seconds.
    pub fn delay_secs(&self) -> (secs: u64)
        ensures
            secs == self.delay(),
            BACKOFF_FLOOR_SECS <= secs <= BACKOFF_CAP_SECS,
    {
        proof {
            use_type_invariant(self);
        }
        self.delay_secs
    }

    /// Accounts for one finished attempt that delivered `delivered` trades,
    /// whatever its outcome was, and says how long to sleep before the next.
    pub fn after_attempt(&mut self, delivered: u64) -> (retry: Retry)
        ensures
            retry.productive == (delivered > 0),
            retry.pause_secs == pause_after(old(self).delay(), delivered as nat),
            final(self).delay() == next_delay(old(self).delay(), delivered as nat),
            BACKOFF_FLOOR_SECS <= retry.pause_secs <= BACKOFF_CAP_SECS,
    {
        proof {
            use_type_invariant(&*self);
        }
        if delivered > 0 {
            self.delay_secs = BACKOFF_FLOOR_SECS;
            Retry { pause_secs: BACKOFF_FLOOR_SECS, productive: true }
        } else {
            let pause: u64 = self.delay_secs;
            let doubled: u64 = pause * 2;
            self.delay_secs = if doubled <= BACKOFF_CAP_SECS {
                doubled
            } else {
                BACKOFF_CAP_SECS
            };
            Retry { pause_secs: pause, productive: false }
        }
    }
}

/// Whatever the attempts delivered, the delay stays between the floor and
/// the cap.
pub proof fn lemma_delay_within_bounds(history: Seq<nat>)
    ensures
        BACKOFF_FLOOR_SECS <= delay_after(history) <= BACKOFF_CAP_SECS,
    decreases history.len(),
{
    if history.len() > 0 {
        lemma_delay_within_bounds(history.drop_last());
    }
}

/// After a productive attempt the next pause is the floor, and so is the
/// delay that follows, whatever the delay was before that attempt.
pub proof fn lemma_productive_attempt_resets(history: Seq<nat>, delivered: nat)
    requires
        delivered > 0,
    ensures
        pause_after(delay_after(history), delivered) == BACKOFF_FLOOR_SECS,
        delay_after(history.push(delivered)) == BACKOFF_FLOOR_SECS,
{
    assert(history.push(delivered).drop_last() =~= history);
}

/// From a cold start, a run of attempts that all delivered nothing doubles
/// the delay each time until it reaches the cap: 1, 2, 4, 8, 16, 32, then 60
/// for good.
pub proof fn lemma_idle_run_doubles(history: Seq<nat>)
    requires
        forall|i: int| 0 <= i < history.len() ==> history[i] == 0,
    ensures
        history.len() < 6 ==> delay_after(history) == pow2(history.len()),
        history.len() >= 6 ==> delay_after(history) == BACKOFF_CAP_SECS,
    decreases history.len(),
{
    lemma2_to64();
    if history.len() > 0 {
        lemma_idle_run_doubles(history.drop_last());
    }
}

} // verus!
