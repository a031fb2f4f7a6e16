//! The bounded-retry controller.
//!
//! An operation with transient failures is attempted up to a fixed number
//! of times, with a fixed pause between attempts.  The controller is
//! modelled as a pure function of the per-attempt outcomes, so its
//! behaviour is verified for every possible outcome sequence; the driver
//! around it performs the actual attempts and pauses.

use vstd::prelude::*;

verus! {

/// What a bounded retry loop did: whether it succeeded, how many attempts
/// it spent, and how many inter-attempt pauses it slept.
#[derive(Clone, Copy, Debug, PartialEq, Eq, Structural)]
pub struct RetryOutcome {
    pub succeeded: bool,
    pub attempts_used: usize,
    pub pauses: usize,
}

/// The outcome of retrying an operation whose per-attempt results are
/// `results` (true = success), with a budget of `max_tries` attempts: the
/// loop stops at the first success or when the budget is exhausted, and
/// sleeps once between consecutive attempts.
pub fn bounded_retry_outcome(results: &Vec<bool>, max_tries: usize) -> (r: RetryOutcome)
    requires
        1 <= max_tries <= results@.len(),
    ensures
        r.succeeded == exists|k: int| 0 <= k < max_tries && results@[k],
        r.succeeded ==> 1 <= r.attempts_used <= max_tries && results@[r.attempts_used - 1]
            && forall|k: int| 0 <= k < r.attempts_used - 1 ==> !results@[k],
        !r.succeeded ==> r.attempts_used == max_tries && forall|k: int|
            0 <= k < max_tries ==> !results@[k],
        r.pauses == r.attempts_used - 1,
{
    let mut i: usize = 0;
    loop
        invariant
            0 <= i < max_tries,
            max_tries <= results@.len(),
            forall|k: int| 0 <= k < i ==> !results@[k],
        decreases max_tries - i,
    {
        if results[i] {
            return RetryOutcome { succeeded: true, attempts_used: i + 1, pauses: i };
        }
        if i + 1 == max_tries {
            return RetryOutcome { succeeded: false, attempts_used: max_tries, pauses: i };
        }
        i = i + 1;
    }
}

} // verus!
