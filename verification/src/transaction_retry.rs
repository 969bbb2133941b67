//! Retrying a transaction that failed to serialize, and carrying a typed
//! error out of the body of a transaction.
//!
//! A transaction that fails to serialize against another is run again,
//! after a wait that is drawn at random below a bound that doubles with
//! every attempt, up to a cap. The number of attempts and the time spent
//! are capped too, each on its own. Every other failure ends the
//! transaction at once.

use vstd::arithmetic::power2::{lemma2_to64, lemma_pow2_strictly_increases, lemma_pow2_unfold, pow2};
use vstd::prelude::*;

verus! {

/// How an attempt at a transaction ended.
#[derive(Clone, Copy, Debug, PartialEq, Eq, Structural)]
pub enum TransactionOutcome {
    /// The transaction is committed.
    Committed,
    /// The transaction could not be serialized with another and was rolled
    /// back.
    SerializationFailure,
    /// The transaction failed for another reason and was rolled back.
    Failed,
}

/// The limits of retrying.
#[derive(Clone, Copy, Debug, PartialEq, Eq, Structural)]
pub struct RetryPolicy {
    /// The greatest number of attempts, the first one included.
    pub max_attempts: u32,
    /// The bound of the wait after the first attempt, in milliseconds.
    pub base_delay_ms: u64,
    /// The greatest bound of a wait, in milliseconds.
    pub max_delay_ms: u64,
    /// The time, in milliseconds, after which no attempt is made anymore.
    pub max_elapsed_ms: u64,
}

/// What to do after an attempt.
#[derive(Clone, Copy, Debug, PartialEq, Eq, Structural)]
pub enum RetryAction {
    /// The transaction is committed: there is nothing left to do.
    Done,
    /// Wait this many milliseconds, then run the transaction again.
    Retry { delay_ms: u64 },
    /// Report the failure.
    GiveUp,
}

/// Counts the attempts at one transaction.
#[derive(Clone, Copy, Debug, PartialEq, Eq, Structural)]
pub struct RetryHelper {
    policy: RetryPolicy,
    attempts: u32,
}

/// The bound of the wait after the attempt with the given number, counted
/// from zero: the base doubled that many times, and the cap at most.
pub open spec fn backoff_bound(policy: RetryPolicy, attempt: nat) -> nat {
    if policy.base_delay_ms * pow2(attempt) <= policy.max_delay_ms {
        (policy.base_delay_ms * pow2(attempt)) as nat
    } else {
        policy.max_delay_ms as nat
    }
}

/// What to do after an attempt that ended in `outcome`, the attempts before
/// it being `attempts` in number and `elapsed_ms` the time since the first
/// attempt began; `jitter` is a number drawn at random.
pub open spec fn retry_action(
    policy: RetryPolicy,
    attempts: nat,
    outcome: TransactionOutcome,
    elapsed_ms: u64,
    jitter: u64,
) -> RetryAction {
    match outcome {
        TransactionOutcome::Committed => RetryAction::Done,
        TransactionOutcome::Failed => RetryAction::GiveUp,
        TransactionOutcome::SerializationFailure => if attempts + 1 >= policy.max_attempts
            || elapsed_ms >= policy.max_elapsed_ms {
            RetryAction::GiveUp
        } else {
            RetryAction::Retry {
                delay_ms: (jitter as nat % (backoff_bound(policy, attempts) + 1)) as u64,
            }
        },
    }
}

/// The bound of the wait after an attempt.
fn backoff(policy: RetryPolicy, attempt: u32) -> (res: u64)
    ensures
        res == backoff_bound(policy, attempt as nat),
        res <= policy.max_delay_ms,
{
    let mut bound: u64 = policy.base_delay_ms;
    let mut doubled: u32 = 0;
    proof {
        lemma2_to64();
    }
    if bound > policy.max_delay_ms {
        proof {
            lemma_pow2_at_least_one(attempt as nat);
            assert(policy.base_delay_ms * pow2(attempt as nat) >= policy.base_delay_ms)
                by (nonlinear_arith)
                requires
                    pow2(attempt as nat) >= 1,
            ;
        }
        return policy.max_delay_ms;
    }
    while doubled < attempt
        invariant
            doubled <= attempt,
            bound == policy.base_delay_ms * pow2(doubled as nat),
            bound <= policy.max_delay_ms,
        decreases attempt - doubled,
    {
        proof {
            lemma_pow2_unfold((doubled + 1) as nat);
            assert(policy.base_delay_ms * (2 * pow2(doubled as nat)) == 2 * (policy.base_delay_ms
                * pow2(doubled as nat))) by (nonlinear_arith);
        }
        if bound > policy.max_delay_ms / 2 {
            proof {
                let now = (doubled + 1) as nat;
                assert(policy.base_delay_ms * pow2(now) > policy.max_delay_ms);
                if now < attempt {
                    lemma_pow2_strictly_increases(now, attempt as nat);
                    assert(policy.base_delay_ms * pow2(attempt as nat) >= policy.base_delay_ms
                        * pow2(now)) by (nonlinear_arith)
                        requires
                            pow2(attempt as nat) >= pow2(now),
                    ;
                }
            }
            return policy.max_delay_ms;
        }
        bound = bound * 2;
        doubled = doubled + 1;
    }
    bound
}

/// A power of two is at least one.
proof fn lemma_pow2_at_least_one(e: nat)
    ensures
        pow2(e) >= 1,
{
    vstd::arithmetic::power2::lemma_pow2_pos(e);
}

impl RetryHelper {
    /// The limits of retrying.
    pub closed spec fn spec_policy(self) -> RetryPolicy {
        self.policy
    }

    /// The number of attempts that have ended.
    pub closed spec fn spec_attempts(self) -> nat {
        self.attempts as nat
    }

    /// A helper for a transaction that has not been attempted yet.
    pub fn new(policy: RetryPolicy) -> (res: RetryHelper)
        ensures
            res.spec_policy() == policy,
            res.spec_attempts() == 0,
    {
        RetryHelper { policy, attempts: 0 }
    }

    /// The number of attempts that have ended.
    pub fn attempts(&self) -> (res: u32)
        ensures
            res == self.spec_attempts(),
    {
        self.attempts
    }

    /// What to do after an attempt that ended in `outcome`, `elapsed_ms`
    /// milliseconds after the first attempt began. `jitter` is a number
    /// drawn at random: the wait before the next attempt is its remainder
    /// by one more than the bound of the wait.
    pub fn on_outcome(&mut self, outcome: TransactionOutcome, elapsed_ms: u64, jitter: u64) -> (res:
        RetryAction)
        ensures
            res == retry_action(
                old(self).spec_policy(),
                old(self).spec_attempts(),
                outcome,
                elapsed_ms,
                jitter,
            ),
            final(self).spec_policy() == old(self).spec_policy(),
            final(self).spec_attempts() == if res is Retry {
                old(self).spec_attempts() + 1
            } else {
                old(self).spec_attempts()
            },
            res matches RetryAction::Retry { delay_ms } ==> delay_ms <= old(self).spec_policy().max_delay_ms && final(self).spec_attempts() < old(self).spec_policy().max_attempts,
    {
        match outcome {
            TransactionOutcome::Committed => RetryAction::Done,
            TransactionOutcome::Failed => RetryAction::GiveUp,
            TransactionOutcome::SerializationFailure => {
                if self.attempts >= self.policy.max_attempts || self.attempts + 1
                    >= self.policy.max_attempts || elapsed_ms >= self.policy.max_elapsed_ms {
                    RetryAction::GiveUp
                } else {
                    let bound = backoff(self.policy, self.attempts);
                    let delay_ms = if bound == u64::MAX {
                        jitter
                    } else {
                        jitter % (bound + 1)
                    };
                    proof {
                        if bound == u64::MAX {
                            vstd::arithmetic::div_mod::lemma_small_mod(
                                jitter as nat,
                                (bound + 1) as nat,
                            );
                        }
                    }
                    self.attempts = self.attempts + 1;
                    RetryAction::Retry { delay_ms }
                }
            },
        }
    }
}

/// A slot for the typed error of the body of a transaction. The body puts
/// its error into the slot before it fails; the caller takes it out once
/// the transaction has ended, however often the body ran.
#[derive(Debug)]
pub struct OptionalError<E> {
    slot: Option<E>,
}

impl<E> OptionalError<E> {
    /// The error in the slot, if there is one.
    pub closed spec fn spec_error(self) -> Option<E> {
        self.slot
    }

    /// An empty slot.
    pub fn new() -> (res: OptionalError<E>)
        ensures
            res.spec_error() is None,
    {
        OptionalError { slot: None }
    }

    /// Puts the error into the slot, in the place of what was there.
    pub fn bail(&mut self, error: E)
        ensures
            final(self).spec_error() == Some(error),
    {
        self.slot = Some(error);
    }

    /// Takes the error out of the slot.
    pub fn take(&mut self) -> (res: Option<E>)
        ensures
            res == old(self).spec_error(),
            final(self).spec_error() is None,
    {
        self.slot.take()
    }
}

} // verus!
