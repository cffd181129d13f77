//! The submission retry policy: an explicit backoff-policy value consumed
//! by a scheduler-agnostic driver.
//!
//! The policy is pure data plus pure decisions, so it is testable without
//! real delays. The driver performing the actual submission and sleeping
//! reports each attempt's outcome and asks for the next step; only
//! transient errors are retried, ledger rejections abort at once, and a
//! spent budget surfaces as `SubmissionExhausted`.

use vstd::prelude::*;

verus! {

/// `base` raised to `e`.
pub open spec fn spec_pow(base: int, e: nat) -> int
    decreases e,
{
    if e == 0 {
        1
    } else {
        base * spec_pow(base, (e - 1) as nat)
    }
}

/// Powers of a base of at least one never shrink as the exponent grows.
pub proof fn lemma_pow_nondecreasing(base: int, e: nat)
    requires
        1 <= base,
    ensures
        spec_pow(base, e) <= spec_pow(base, e + 1),
        1 <= spec_pow(base, e),
    decreases e,
{
    if e == 0 {
    } else {
        lemma_pow_nondecreasing(base, (e - 1) as nat);
        assert(spec_pow(base, e) == base * spec_pow(base, (e - 1) as nat));
        assert(spec_pow(base, e + 1) == base * spec_pow(base, e));
        assert(1 <= spec_pow(base, e)) by (nonlinear_arith)
            requires
                1 <= base,
                1 <= spec_pow(base, (e - 1) as nat),
                spec_pow(base, e) == base * spec_pow(base, (e - 1) as nat),
        ;
        assert(spec_pow(base, e) <= spec_pow(base, e + 1)) by (nonlinear_arith)
            requires
                1 <= base,
                1 <= spec_pow(base, e),
                spec_pow(base, e + 1) == base * spec_pow(base, e),
        ;
    }
}

/// How one submission attempt ended, as the driver reports it: confirmed,
/// failed with a transient network error, or rejected outright by the
/// ledger (a signature or validation failure).
#[derive(Clone, Copy, Debug, PartialEq, Eq, Structural)]
pub enum SubmitOutcome {
    Confirmed,
    Transient,
    Fatal,
}

/// What the driver must do after an attempt: stop successfully, sleep and
/// retry, surface the underlying rejection at once, or give up with
/// `SubmissionExhausted` carrying the last underlying error.
#[derive(Clone, Copy, Debug, PartialEq, Eq, Structural)]
pub enum RetryDecision {
    Done,
    RetryAfter(u64),
    Abort,
    Exhausted,
}

/// Base delay, multiplier and attempt budget of an exponential backoff.
#[derive(Clone, Copy, Debug, PartialEq, Eq, Structural)]
pub struct BackoffPolicy {
    pub base_delay_ms: u64,
    pub multiplier: u64,
    pub max_attempts: u32,
}

impl BackoffPolicy {
    /// A usable policy backs off by a factor of at least one and allows at
    /// least one attempt.
    pub open spec fn wf(&self) -> bool {
        &&& 1 <= self.multiplier
        &&& 1 <= self.max_attempts
    }

    /// The backoff tied to attempt `attempt` (zero-based):
    /// `base * multiplier^attempt`, saturated at `u64::MAX`.
    pub open spec fn spec_delay(&self, attempt: u32) -> int {
        let exact = self.base_delay_ms * spec_pow(self.multiplier as int, attempt as nat);
        if exact <= u64::MAX {
            exact
        } else {
            u64::MAX as int
        }
    }

    /// The default submission policy: up to five attempts, starting at
    /// 200 ms and doubling.
    pub fn standard() -> (p: BackoffPolicy)
        ensures
            p.wf(),
            p.base_delay_ms == 200,
            p.multiplier == 2,
            p.max_attempts == 5,
    {
        BackoffPolicy { base_delay_ms: 200, multiplier: 2, max_attempts: 5 }
    }

    /// The delay, in milliseconds, to sleep after a failed attempt
    /// `attempt` (zero-based) before trying again.
    pub fn delay_for_attempt(&self, attempt: u32) -> (d: u64)
        requires
            self.wf(),
        ensures
            d == self.spec_delay(attempt),
    {
        let mut d: u64 = self.base_delay_ms;
        let mut i: u32 = 0;
        while i < attempt
            invariant
                self.wf(),
                i <= attempt,
                d == self.spec_delay(i),
            decreases attempt - i,
        {
            proof {
                lemma_pow_nondecreasing(self.multiplier as int, i as nat);
                assert(self.base_delay_ms * spec_pow(self.multiplier as int, (i + 1) as nat)
                    == (self.base_delay_ms * spec_pow(self.multiplier as int, i as nat))
                        * self.multiplier) by (nonlinear_arith)
                    requires
                        spec_pow(self.multiplier as int, (i + 1) as nat)
                            == self.multiplier * spec_pow(self.multiplier as int, i as nat),
                ;
                assert(self.base_delay_ms * spec_pow(self.multiplier as int, i as nat)
                    <= self.base_delay_ms * spec_pow(self.multiplier as int, (i + 1) as nat))
                    by (nonlinear_arith)
                    requires
                        0 <= self.base_delay_ms,
                        spec_pow(self.multiplier as int, i as nat)
                            <= spec_pow(self.multiplier as int, (i + 1) as nat),
                ;
            }
            d = match d.checked_mul(self.multiplier) {
                Option::Some(v) => v,
                Option::None => u64::MAX,
            };
            i = i + 1;
        }
        d
    }

    /// The decision after attempt `attempt` (zero-based) ended with
    /// `outcome`: success stops, a ledger rejection aborts at once, a
    /// transient failure retries after the attempt's backoff while budget
    /// remains and is exhausted otherwise.
    pub fn next_step(&self, attempt: u32, outcome: SubmitOutcome) -> (d: RetryDecision)
        requires
            self.wf(),
        ensures
            d == match outcome {
                SubmitOutcome::Confirmed => RetryDecision::Done,
                SubmitOutcome::Fatal => RetryDecision::Abort,
                SubmitOutcome::Transient => {
                    if attempt + 1 < self.max_attempts {
                        RetryDecision::RetryAfter((self.spec_delay(attempt)) as u64)
                    } else {
                        RetryDecision::Exhausted
                    }
                },
            },
    {
        match outcome {
            SubmitOutcome::Confirmed => RetryDecision::Done,
            SubmitOutcome::Fatal => RetryDecision::Abort,
            SubmitOutcome::Transient => {
                if attempt < u32::MAX && attempt + 1 < self.max_attempts {
                    RetryDecision::RetryAfter(self.delay_for_attempt(attempt))
                } else {
                    RetryDecision::Exhausted
                }
            },
        }
    }

    /// The whole backoff schedule, one delay per attempt in order. Its sum
    /// is the policy's worst-case waiting budget.
    pub fn schedule(&self) -> (s: Vec<u64>)
        requires
            self.wf(),
        ensures
            s@.len() == self.max_attempts,
            forall|i: int| 0 <= i < s@.len() ==> s@[i] == self.spec_delay(i as u32),
    {
        let mut s: Vec<u64> = Vec::new();
        let mut i: u32 = 0;
        while i < self.max_attempts
            invariant
                self.wf(),
                i <= self.max_attempts,
                s@.len() == i,
                forall|j: int| 0 <= j < i ==> s@[j] == self.spec_delay(j as u32),
            decreases self.max_attempts - i,
        {
            s.push(self.delay_for_attempt(i));
            i = i + 1;
        }
        s
    }
}

} // verus!
