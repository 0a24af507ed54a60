//! How often an update is tried again, and how long it waits in between.

use vstd::arithmetic::power2::{lemma_pow2_pos, lemma_pow2_strictly_increases, lemma_pow2_unfold, pow2};
use vstd::prelude::*;

verus! {

/// The retry policy of an update: how many times a failed attempt is
/// repeated, and the wait before the first repetition. Each further wait is
/// twice as long as the one before.
#[derive(Debug, Clone, Copy, PartialEq, Eq, Structural)]
pub struct RetryPolicy {
    /// How many times a failed attempt is repeated.
    pub max_retries: u32,
    /// The wait before the first repetition, in milliseconds.
    pub first_delay_ms: u64,
}

impl RetryPolicy {
    /// The wait before repetition number `retry` (counted from zero), in
    /// milliseconds: the first wait doubled `retry` times, or the longest
    /// wait that can be expressed where that would be longer still.
    pub open spec fn delay(self, retry: nat) -> nat {
        let exact = self.first_delay_ms as nat * pow2(retry);
        if exact > u64::MAX {
            u64::MAX as nat
        } else {
            exact
        }
    }

    /// The policy of the service: five repetitions, after waits of 10, 20,
    /// 40, 80 and 160 milliseconds.
    pub fn standard() -> (policy: RetryPolicy)
        ensures
            policy == (RetryPolicy { max_retries: 5, first_delay_ms: 10 }),
    {
        RetryPolicy { max_retries: 5, first_delay_ms: 10 }
    }

    /// Whether another repetition is allowed after `retries` of them.
    pub fn allows_retry(&self, retries: u32) -> (allowed: bool)
        ensures
            allowed == (retries < self.max_retries),
    {
        retries < self.max_retries
    }

    /// The wait before repetition number `retry`, in milliseconds.
    pub fn delay_ms(&self, retry: u32) -> (millis: u64)
        ensures
            millis == self.delay(retry as nat),
    {
        let mut millis: u64 = self.first_delay_ms;
        let mut k: u32 = 0;
        proof {
            lemma_pow2_unfold(1);
            assert(pow2(0) == 1) by {
                vstd::arithmetic::power2::lemma2_to64();
            }
            assert(self.first_delay_ms as nat * 1 == self.first_delay_ms as nat);
        }
        while k < retry && millis != 0 && millis != u64::MAX
            invariant
                k <= retry,
                millis == self.delay(k as nat),
            decreases retry - k,
        {
            proof {
                lemma_pow2_unfold((k + 1) as nat);
                assert(self.first_delay_ms as nat * (2 * pow2(k as nat)) == 2 * (
                self.first_delay_ms as nat * pow2(k as nat))) by (nonlinear_arith);
            }
            millis = if millis > u64::MAX / 2 {
                u64::MAX
            } else {
                millis * 2
            };
            k = k + 1;
        }
        proof {
            if k < retry {
                lemma_pow2_strictly_increases(k as nat, retry as nat);
                lemma_pow2_pos(k as nat);
                let first = self.first_delay_ms as nat;
                let low = pow2(k as nat);
                let high = pow2(retry as nat);
                if millis == 0 {
                    assert(first * low == 0);
                    assert(first == 0) by (nonlinear_arith)
                        requires
                            first * low == 0,
                            low > 0,
                    ;
                    assert(first * high == 0) by (nonlinear_arith)
                        requires
                            first == 0,
                    ;
                } else {
                    assert(first * low >= u64::MAX);
                    assert(first * high >= first * low) by (nonlinear_arith)
                        requires
                            high > low,
                    ;
                    assert(first * high > first * low) by (nonlinear_arith)
                        requires
                            high > low,
                            first * low > 0,
                    ;
                }
            }
        }
        millis
    }
}

/// The waits of the standard policy are 10, 20, 40, 80 and 160
/// milliseconds.
pub proof fn lemma_standard_delays()
    ensures
        (RetryPolicy { max_retries: 5, first_delay_ms: 10 }).delay(0) == 10,
        (RetryPolicy { max_retries: 5, first_delay_ms: 10 }).delay(1) == 20,
        (RetryPolicy { max_retries: 5, first_delay_ms: 10 }).delay(2) == 40,
        (RetryPolicy { max_retries: 5, first_delay_ms: 10 }).delay(3) == 80,
        (RetryPolicy { max_retries: 5, first_delay_ms: 10 }).delay(4) == 160,
{
    vstd::arithmetic::power2::lemma2_to64();
}

/// Each wait is twice the one before it, until the longest wait that can be
/// expressed is reached.
pub proof fn lemma_delay_doubles(policy: RetryPolicy, retry: nat)
    ensures
        policy.delay(retry + 1) == if 2 * policy.delay(retry) > u64::MAX {
            u64::MAX as nat
        } else {
            2 * policy.delay(retry)
        },
{
    lemma_pow2_unfold(retry + 1);
    let first = policy.first_delay_ms as nat;
    assert(first * (2 * pow2(retry)) == 2 * (first * pow2(retry))) by (nonlinear_arith);
}

} // verus!
