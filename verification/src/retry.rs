//! Retry/backoff planning for the embedding provider.
//!
//! One network attempt is classified at the transport boundary into an
//! [`AttemptOutcome`]; [`retry_step`] then decides whether to return,
//! fail, or retry after an exponentially growing delay. The caller runs
//! the loop: it performs the attempt, classifies it, and asks for the
//! next decision. Up to three retries follow the initial attempt, with
//! delays of 100, 200 and 400 milliseconds.

use vstd::prelude::*;
use vstd::arithmetic::power2::{lemma2_to64, lemma2_to64_rest, lemma_pow2_strictly_increases, lemma_pow2_unfold, pow2};

verus! {

/// The greatest number of retries after the initial attempt.
pub const MAX_RETRIES: u32 = 3;

/// The delay before the first retry, in milliseconds.
pub const INITIAL_BACKOFF_MS: u64 = 100;

/// How one network attempt ended, as classified where the response (or
/// its absence) is seen.
#[derive(Debug, Clone, Copy, PartialEq, Eq, Structural)]
pub enum AttemptOutcome {
    /// A success status with a usable body.
    Success,
    /// A success status whose body could not be parsed.
    ParseFailure,
    /// The provider does not know the model (not-found semantics).
    ModelNotFound,
    /// Any other non-success status: possibly transient.
    ServerError,
    /// No response at all: connection refused, timeout, or name lookup.
    Transport,
}

/// What to do after an attempt.
#[derive(Debug, Clone, Copy, PartialEq, Eq, Structural)]
pub enum RetryDecision {
    /// The attempt succeeded: hand the result back.
    Done,
    /// A non-retryable rejection, or server errors outlasted the budget.
    FailEmbedding,
    /// Transport failures outlasted the budget: the provider is
    /// unreachable.
    FailUnavailable,
    /// Try again after this many milliseconds.
    RetryAfter { delay_ms: u64 },
}

/// The backoff delay before retry number `attempt + 1`:
/// the initial delay doubled `attempt` times.
pub open spec fn spec_backoff_delay_ms(attempt: nat) -> nat {
    (INITIAL_BACKOFF_MS as nat) * pow2(attempt)
}

proof fn lemma_pow2_bound(n: nat)
    requires
        n <= 40,
    ensures
        pow2(n) <= 0x10000000000,
{
    lemma2_to64_rest();
    if n < 40 {
        lemma_pow2_strictly_increases(n, 40);
    }
}

/// The backoff delay before retry number `attempt + 1`, in milliseconds:
/// 100ms doubled `attempt` times.
pub fn backoff_delay_ms(attempt: u32) -> (r: u64)
    requires
        attempt <= 40,
    ensures
        r == spec_backoff_delay_ms(attempt as nat),
{
    let mut d: u64 = INITIAL_BACKOFF_MS;
    let mut k: u32 = 0;
    proof {
        lemma2_to64();
    }
    while k < attempt
        invariant
            k <= attempt <= 40,
            d == spec_backoff_delay_ms(k as nat),
        decreases attempt - k,
    {
        proof {
            lemma_pow2_bound(k as nat);
            lemma_pow2_unfold((k + 1) as nat);
        }
        d = d * 2;
        k = k + 1;
    }
    d
}

/// The decision after the attempt numbered `attempt` (zero-based) ended
/// with `outcome`.
pub open spec fn spec_retry_step(attempt: nat, outcome: AttemptOutcome) -> RetryDecision {
    match outcome {
        AttemptOutcome::Success => RetryDecision::Done,
        AttemptOutcome::ParseFailure => RetryDecision::FailEmbedding,
        AttemptOutcome::ModelNotFound => RetryDecision::FailEmbedding,
        AttemptOutcome::ServerError => if attempt < MAX_RETRIES {
            RetryDecision::RetryAfter { delay_ms: spec_backoff_delay_ms(attempt) as u64 }
        } else {
            RetryDecision::FailEmbedding
        },
        AttemptOutcome::Transport => if attempt < MAX_RETRIES {
            RetryDecision::RetryAfter { delay_ms: spec_backoff_delay_ms(attempt) as u64 }
        } else {
            RetryDecision::FailUnavailable
        },
    }
}

/// Decide what follows the attempt numbered `attempt` (zero-based): a
/// success returns at once; a non-retryable rejection fails at once; a
/// transient failure retries with exponential backoff until the budget
/// of [`MAX_RETRIES`] retries is spent, and then fails with the kind
/// that matches the last failure.
pub fn retry_step(attempt: u32, outcome: AttemptOutcome) -> (r: RetryDecision)
    requires
        attempt <= MAX_RETRIES,
    ensures
        r == spec_retry_step(attempt as nat, outcome),
{
    match outcome {
        AttemptOutcome::Success => RetryDecision::Done,
        AttemptOutcome::ParseFailure => RetryDecision::FailEmbedding,
        AttemptOutcome::ModelNotFound => RetryDecision::FailEmbedding,
        AttemptOutcome::ServerError => if attempt < MAX_RETRIES {
            let d = backoff_delay_ms(attempt);
            proof {
                lemma_pow2_bound(attempt as nat);
            }
            RetryDecision::RetryAfter { delay_ms: d }
        } else {
            RetryDecision::FailEmbedding
        },
        AttemptOutcome::Transport => if attempt < MAX_RETRIES {
            let d = backoff_delay_ms(attempt);
            proof {
                lemma_pow2_bound(attempt as nat);
            }
            RetryDecision::RetryAfter { delay_ms: d }
        } else {
            RetryDecision::FailUnavailable
        },
    }
}

/// The result of running the retry loop against the attempt outcomes in
/// `outcomes`, starting from attempt number `attempt`: the terminal
/// decision together with the total number of attempts made, or `None`
/// if the outcomes ran out while a retry was still due.
pub open spec fn spec_retry_run(outcomes: Seq<AttemptOutcome>, attempt: nat) -> Option<
    (RetryDecision, nat),
>
    decreases outcomes.len(),
{
    if outcomes.len() == 0 {
        None
    } else {
        let d = spec_retry_step(attempt, outcomes[0]);
        if d is RetryAfter {
            spec_retry_run(outcomes.drop_first(), attempt + 1)
        } else {
            Some((d, attempt + 1))
        }
    }
}

/// Law: against a provider that fails every attempt at the transport
/// level, the loop ends with a provider-unavailable failure after
/// exactly four attempts: one initial and three retries.
pub proof fn lemma_retry_exhaustion(outcomes: Seq<AttemptOutcome>)
    requires
        outcomes.len() >= 4,
        forall|i: int| 0 <= i < outcomes.len() ==> outcomes[i] == AttemptOutcome::Transport,
    ensures
        spec_retry_run(outcomes, 0) == Some((RetryDecision::FailUnavailable, 4nat)),
{
    lemma_retry_exhaustion_from(outcomes, 0);
}

proof fn lemma_retry_exhaustion_from(outcomes: Seq<AttemptOutcome>, attempt: nat)
    requires
        attempt <= MAX_RETRIES,
        outcomes.len() >= 4 - attempt,
        forall|i: int| 0 <= i < outcomes.len() ==> outcomes[i] == AttemptOutcome::Transport,
    ensures
        spec_retry_run(outcomes, attempt) == Some((RetryDecision::FailUnavailable, 4nat)),
    decreases MAX_RETRIES - attempt,
{
    if attempt < MAX_RETRIES {
        lemma_retry_exhaustion_from(outcomes.drop_first(), attempt + 1);
    }
}

} // verus!
