//! The readiness waiter: a bounded poll-until-found state machine that
//! stands in for a completion notification the asynchronous installer does
//! not provide. The polling policy (interval, attempt budget) lives here as
//! tunable constants; the sleeping and the filesystem probe happen outside.

use vstd::prelude::*;

verus! {

/// Seconds between two readiness probes.
pub const POLL_INTERVAL_SECS: u64 = 2;

/// Number of probes before the waiter gives up.
pub const MAX_POLL_ATTEMPTS: u32 = 30;

/// What the waiter does after one probe: stop ready, probe again after the
/// interval, or give up terminally.
#[derive(Clone, Copy, PartialEq, Eq, Debug)]
pub enum WaiterStep {
    Ready,
    Continue { next_attempt: u32 },
    TimedOut,
}

/// The terminal verdict of a whole polling run.
#[derive(Clone, Copy, PartialEq, Eq, Debug)]
pub enum WaitOutcome {
    /// The artifact appeared; `attempts_used` probes were made, the last one
    /// positive.
    Ready { attempts_used: u32 },
    /// All probes in the budget came back negative.
    TimedOut,
}

/// The transition after probe number `attempt` (zero-based) returned
/// `found`: ready on detection, one more attempt while budget remains,
/// terminal timeout once the budget is spent.
pub open spec fn spec_waiter_step(attempt: u32, found: bool) -> WaiterStep {
    if found {
        WaiterStep::Ready
    } else if attempt + 1 < MAX_POLL_ATTEMPTS {
        WaiterStep::Continue { next_attempt: (attempt + 1) as u32 }
    } else {
        WaiterStep::TimedOut
    }
}

/// One waiter transition.
pub fn waiter_step(attempt: u32, found: bool) -> (r: WaiterStep)
    ensures
        r == spec_waiter_step(attempt, found),
{
    if found {
        WaiterStep::Ready
    } else if attempt < MAX_POLL_ATTEMPTS - 1 {
        WaiterStep::Continue { next_attempt: attempt + 1 }
    } else {
        WaiterStep::TimedOut
    }
}

/// The first index at which the probe trace is positive, or the trace
/// length when every probe is negative.
pub open spec fn spec_first_true(polls: Seq<bool>) -> int
    decreases polls.len(),
{
    if polls.len() == 0 {
        0
    } else if polls[0] {
        0
    } else {
        1 + spec_first_true(polls.drop_first())
    }
}

/// The verdict of a polling run whose probes would return `polls[i]` at
/// attempt `i`: ready at the first positive probe within the budget, and
/// timed out after exactly the full budget otherwise.
pub open spec fn spec_wait_outcome(polls: Seq<bool>) -> WaitOutcome {
    if spec_first_true(polls) < MAX_POLL_ATTEMPTS {
        WaitOutcome::Ready { attempts_used: (spec_first_true(polls) + 1) as u32 }
    } else {
        WaitOutcome::TimedOut
    }
}

/// `spec_first_true` is exactly the index of the first positive entry.
pub proof fn lemma_first_true_is(polls: Seq<bool>, i: int)
    requires
        0 <= i <= polls.len(),
        forall|j: int| 0 <= j < i ==> !polls[j],
        i < polls.len() ==> polls[i],
    ensures
        spec_first_true(polls) == if i < polls.len() { i } else { polls.len() as int },
    decreases polls.len(),
{
    if polls.len() > 0 && i > 0 {
        assert(!polls[0]);
        lemma_first_true_is(polls.drop_first(), i - 1);
    }
}

/// The verdict of a full polling run, computed from the probe trace. The
/// trace holds one entry per attempt the budget allows; entries past the
/// first positive one are never consulted by a real run.
pub fn waiter_verdict(polls: &Vec<bool>) -> (r: WaitOutcome)
    requires
        polls@.len() == MAX_POLL_ATTEMPTS,
    ensures
        r == spec_wait_outcome(polls@),
{
    let n = polls.len();
    let mut i: usize = 0;
    while i < n
        invariant
            n == polls@.len(),
            n == MAX_POLL_ATTEMPTS,
            i <= n,
            forall|j: int| 0 <= j < i ==> !polls@[j],
        decreases n - i,
    {
        if polls[i] {
            proof {
                lemma_first_true_is(polls@, i as int);
            }
            return WaitOutcome::Ready { attempts_used: (i + 1) as u32 };
        }
        i += 1;
    }
    proof {
        lemma_first_true_is(polls@, n as int);
    }
    WaitOutcome::TimedOut
}

/// Terminal behavior on a predicate that never becomes true: the waiter
/// consumes exactly the configured maximum number of attempts and then
/// times out.
pub proof fn lemma_waiter_exhausts_budget(polls: Seq<bool>)
    requires
        polls.len() == MAX_POLL_ATTEMPTS,
        forall|j: int| 0 <= j < polls.len() ==> !polls[j],
    ensures
        spec_wait_outcome(polls) == WaitOutcome::TimedOut,
        spec_first_true(polls) == MAX_POLL_ATTEMPTS,
{
    lemma_first_true_is(polls, polls.len() as int);
}

/// Terminal behavior on a predicate that first becomes true at attempt
/// `k + 1` (one-based) within the budget: the waiter stops immediately at
/// that attempt, using exactly `k + 1` probes.
pub proof fn lemma_waiter_stops_at_detection(polls: Seq<bool>, k: int)
    requires
        polls.len() == MAX_POLL_ATTEMPTS,
        0 <= k < polls.len(),
        polls[k],
        forall|j: int| 0 <= j < k ==> !polls[j],
    ensures
        spec_wait_outcome(polls) == (WaitOutcome::Ready { attempts_used: (k + 1) as u32 }),
{
    lemma_first_true_is(polls, k);
}

} // verus!
