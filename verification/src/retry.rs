//! The retry policy of the basic extraction: each call to the chain is tried
//! up to `n_retry` times, with a pause after each failed try; with `n_retry`
//! at zero the call is made once. This module decides; the caller makes the
//! calls and sleeps.

use vstd::prelude::*;
use crate::pipeline::ExtractionPlan;

verus! {

/// How one try of a call ended.
#[derive(Debug, Clone, Copy, PartialEq, Eq, Structural)]
pub enum AttemptOutcome {
    /// The call answered with what was asked for.
    Success,
    /// The call answered, but the chain has no such block.
    Missing,
    /// The transport failed.
    Failed,
}

/// How often to try, and how many seconds to pause after a failed try.
#[derive(Debug, Clone, Copy, PartialEq, Eq, Structural)]
pub struct RetryPolicy {
    pub n_retry: usize,
    pub cooldown: usize,
}

/// What to do after a try.
#[derive(Debug, Clone, Copy, PartialEq, Eq, Structural)]
pub struct RetryStep {
    /// Count the try as a failed request.
    pub failed: bool,
    /// Pause for this many seconds.
    pub sleep: Option<u64>,
    /// Try again (after the pause); else the outcome of this try stands.
    pub again: bool,
}

impl RetryPolicy {
    /// How many tries one call may take.
    pub open spec fn attempts_allowed(&self) -> nat {
        if self.n_retry == 0 {
            1
        } else {
            self.n_retry as nat
        }
    }

    /// What to do after the try number `attempts_made` (counting from one)
    /// ended with `outcome`: every try that is no success counts as failed;
    /// with retries on, a pause follows it where the cooldown is not zero, and
    /// another try where tries are left.
    pub open spec fn step(&self, attempts_made: nat, outcome: AttemptOutcome) -> RetryStep {
        let failed = outcome != AttemptOutcome::Success;
        RetryStep {
            failed,
            sleep: if failed && self.n_retry > 0 && self.cooldown > 0 {
                Some(self.cooldown as u64)
            } else {
                None
            },
            again: failed && attempts_made < self.n_retry,
        }
    }

    /// What to do after the try number `attempts_made` ended with `outcome`.
    pub fn after_attempt(&self, attempts_made: usize, outcome: AttemptOutcome) -> (out: RetryStep)
        ensures
            out == self.step(attempts_made as nat, outcome),
    {
        let failed = match outcome {
            AttemptOutcome::Success => false,
            _ => true,
        };
        RetryStep {
            failed,
            sleep: if failed && self.n_retry > 0 && self.cooldown > 0 {
                Some(self.cooldown as u64)
            } else {
                None
            },
            again: failed && attempts_made < self.n_retry,
        }
    }

    /// How many tries a call takes in all when try number `made` has just been
    /// made and the tries end as `outcomes` says (the outcome of try `k` is
    /// `outcomes(k)`).
    pub open spec fn tries(&self, outcomes: spec_fn(nat) -> AttemptOutcome, made: nat) -> nat
        decreases self.n_retry - made,
    {
        if self.step(made, outcomes(made)).again {
            self.tries(outcomes, made + 1)
        } else {
            made
        }
    }
}

/// However the tries end, a call takes no more tries than the policy allows.
pub proof fn lemma_tries_bounded(
    policy: RetryPolicy,
    outcomes: spec_fn(nat) -> AttemptOutcome,
    made: nat,
)
    requires
        1 <= made <= policy.attempts_allowed(),
    ensures
        policy.tries(outcomes, made) <= policy.attempts_allowed(),
    decreases policy.n_retry - made,
{
    if policy.step(made, outcomes(made)).again {
        lemma_tries_bounded(policy, outcomes, made + 1);
    }
}

impl ExtractionPlan {
    /// The most tries that the extraction of one block can take: each call of
    /// the basic extraction as often as the policy allows, and the one call
    /// for the traces, which is not retried.
    pub open spec fn attempts_bound(&self, policy: RetryPolicy) -> nat {
        self.basic_calls() * policy.attempts_allowed() + if self.traces {
            1nat
        } else {
            0nat
        }
    }
}

/// With retries on, the extraction of one block takes at most three times
/// `n_retry` tries, and one more for the traces.
pub proof fn lemma_attempts_bound(plan: ExtractionPlan, policy: RetryPolicy)
    requires
        policy.n_retry >= 1,
    ensures
        plan.attempts_bound(policy) <= 3 * policy.n_retry + 1,
{
    assert(plan.basic_calls() <= 3);
    assert(plan.basic_calls() * policy.attempts_allowed() <= 3 * policy.n_retry) by (nonlinear_arith)
        requires
            plan.basic_calls() <= 3,
            policy.attempts_allowed() == policy.n_retry,
    ;
}

} // verus!
