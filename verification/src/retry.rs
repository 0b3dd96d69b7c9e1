//! The bounded fixed-delay retry protocol: a state machine driven around a
//! live transport, a reference run over a pre-recorded outcome script, and
//! the laws the protocol obeys.
//!
//! Every failure is treated as retryable; no error classification happens at
//! this layer, so a permanently failing destination consumes the full
//! attempt budget.

use vstd::prelude::*;
use crate::config::RetryConfig;

verus! {

/// What one destination's retry sequence came to.
#[derive(Clone, Copy, Debug, PartialEq, Eq, Structural)]
pub struct RetryOutcome {
    pub delivered: bool,
    /// Attempts actually started; always between 1 and `max_attempts`.
    pub attempts_made: u32,
    /// Inter-attempt pauses taken; always `attempts_made - 1`, since no
    /// pause follows the final attempt.
    pub delays_observed: u32,
}

/// Attempt `i` (counting from zero) of a scripted transport succeeds.
pub open spec fn spec_attempt_ok(outcomes: Seq<bool>, i: int) -> bool {
    0 <= i < outcomes.len() && outcomes[i]
}

/// Some attempt among the first `max` succeeds.
pub open spec fn spec_delivered_within(outcomes: Seq<bool>, max: int) -> bool {
    exists|i: int| 0 <= i < max && spec_attempt_ok(outcomes, i)
}

/// Everything the retry protocol promises of a run against `outcomes` under
/// an attempt budget of `max`: success exactly when some attempt within the
/// budget succeeds, the attempt count stopping at the first success, one
/// pause fewer than attempts, and exhaustion consuming the whole budget.
pub open spec fn spec_retry_contract(outcomes: Seq<bool>, max: int, r: RetryOutcome) -> bool {
    &&& 1 <= r.attempts_made <= max
    &&& r.delays_observed == r.attempts_made - 1
    &&& r.delivered == spec_delivered_within(outcomes, max)
    &&& (r.delivered ==> spec_attempt_ok(outcomes, r.attempts_made - 1) && (forall|j: int|
        0 <= j < r.attempts_made - 1 ==> !spec_attempt_ok(outcomes, j)))
    &&& (!r.delivered ==> r.attempts_made == max)
}

/// Runs the retry protocol against a pre-recorded script of attempt
/// outcomes, where `outcomes[i]` says whether attempt `i + 1` would
/// succeed; an attempt beyond the script's end fails. The live loop in the
/// application drives `RetryExecutor` through exactly the same protocol.
pub fn run_scripted(policy: &RetryConfig, outcomes: &Vec<bool>) -> (r: RetryOutcome)
    requires
        policy.max_attempts >= 1,
    ensures
        spec_retry_contract(outcomes@, policy.max_attempts as int, r),
{
    let max = policy.max_attempts;
    let mut i: u32 = 0;
    while i < max
        invariant
            max == policy.max_attempts,
            max >= 1,
            0 <= i <= max,
            forall|j: int| 0 <= j < i ==> !spec_attempt_ok(outcomes@, j),
        decreases max - i,
    {
        let idx = i as usize;
        let ok = if idx < outcomes.len() {
            outcomes[idx]
        } else {
            false
        };
        if ok {
            proof {
                assert(spec_attempt_ok(outcomes@, i as int));
                assert(spec_delivered_within(outcomes@, max as int));
            }
            return RetryOutcome { delivered: true, attempts_made: i + 1, delays_observed: i };
        }
        i = i + 1;
    }
    proof {
        assert(!spec_delivered_within(outcomes@, max as int));
    }
    RetryOutcome { delivered: false, attempts_made: max, delays_observed: max - 1 }
}

// ---------------------------------------------------------------------------
// The live state machine
// ---------------------------------------------------------------------------

/// What to do after a failed attempt: pause and try again, or stop.
#[derive(Clone, Copy, Debug, PartialEq, Eq, Structural)]
pub enum RetryDecision {
    Retry { delay_seconds: u64 },
    GiveUp,
}

/// Tracks one destination's attempt budget while an application loop does
/// the sending and the pausing. The inter-attempt pause is the caller's: it
/// must be a non-blocking suspension in the caller's concurrency model.
#[derive(Clone, Copy, Debug)]
pub struct RetryExecutor {
    pub policy: RetryConfig,
    /// Failed attempts recorded so far.
    pub failures: u32,
}

impl RetryExecutor {
    /// A fresh budget; the policy must allow at least one attempt.
    pub fn new(policy: RetryConfig) -> (r: Self)
        requires
            policy.max_attempts >= 1,
        ensures
            r.policy == policy,
            r.failures == 0,
    {
        RetryExecutor { policy, failures: 0 }
    }

    /// Whether another attempt may start.
    pub fn can_attempt(&self) -> (b: bool)
        ensures
            b == (self.failures < self.policy.max_attempts),
    {
        self.failures < self.policy.max_attempts
    }

    /// The attempt count to report when the pending attempt succeeds.
    pub fn attempts_with_success(&self) -> (n: u32)
        requires
            self.failures < self.policy.max_attempts,
        ensures
            n == self.failures + 1,
    {
        self.failures + 1
    }

    /// Records a failed attempt: `Retry` with the configured pause while
    /// budget remains, `GiveUp` once the budget is exhausted. No pause is
    /// taken after the final failed attempt.
    pub fn on_failure(&mut self) -> (d: RetryDecision)
        requires
            old(self).failures < old(self).policy.max_attempts,
        ensures
            final(self).policy == old(self).policy,
            final(self).failures == old(self).failures + 1,
            d == (if final(self).failures < final(self).policy.max_attempts {
                RetryDecision::Retry { delay_seconds: final(self).policy.delay_seconds }
            } else {
                RetryDecision::GiveUp
            }),
    {
        self.failures = self.failures + 1;
        if self.failures < self.policy.max_attempts {
            RetryDecision::Retry { delay_seconds: self.policy.delay_seconds }
        } else {
            RetryDecision::GiveUp
        }
    }
}

// ---------------------------------------------------------------------------
// Retry laws
// ---------------------------------------------------------------------------

/// A transport that fails exactly `k` times and then succeeds, with `k`
/// within the budget, is delivered on attempt `k + 1` after `k`
/// inter-attempt pauses.
pub proof fn lemma_retry_success_after_k_failures(
    outcomes: Seq<bool>,
    max: int,
    k: int,
    r: RetryOutcome,
)
    requires
        1 <= max,
        0 <= k < max,
        forall|j: int| 0 <= j < k ==> !spec_attempt_ok(outcomes, j),
        spec_attempt_ok(outcomes, k),
        spec_retry_contract(outcomes, max, r),
    ensures
        r.delivered,
        r.attempts_made == k + 1,
        r.delays_observed == k,
{
    assert(spec_delivered_within(outcomes, max));
    if r.attempts_made - 1 < k {
        assert(!spec_attempt_ok(outcomes, r.attempts_made - 1));
    }
    if k < r.attempts_made - 1 {
        assert(!spec_attempt_ok(outcomes, k));
    }
}

/// A transport that never succeeds exhausts the whole budget: exactly
/// `max` attempts, with `max - 1` pauses in between, and no delivery.
pub proof fn lemma_retry_exhaustion(outcomes: Seq<bool>, max: int, r: RetryOutcome)
    requires
        1 <= max,
        forall|j: int| !spec_attempt_ok(outcomes, j),
        spec_retry_contract(outcomes, max, r),
    ensures
        !r.delivered,
        r.attempts_made == max,
        r.delays_observed == max - 1,
{
}

} // verus!
