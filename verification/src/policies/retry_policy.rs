use vstd::prelude::*;

use crate::utils::clonable_request::ClonableRequest;

verus! {

/// The growth factor of the backoff delay before attempt `n` (for `n >= 1`):
/// it doubles with each retry and is capped after the third.
pub open spec fn backoff_factor(n: nat) -> nat {
    if n >= 4 {
        8
    } else if n == 3 {
        4
    } else if n == 2 {
        2
    } else {
        1
    }
}

/// The backoff delay, in milliseconds, that precedes attempt `n` (for
/// `n >= 1`): the base delay times two to the power of `min(n - 1, 3)`.
pub open spec fn spec_backoff_ms(base: nat, n: nat) -> nat {
    base * backoff_factor(n)
}

/// `n` clamped to what a machine word can hold.
pub open spec fn sat64(n: nat) -> nat {
    if n <= u64::MAX {
        n
    } else {
        u64::MAX as nat
    }
}

/// What to do after one transport attempt: the call is done, is to be retried
/// after a backoff delay, or has used up its retry budget.
#[derive(Clone, Copy, PartialEq, Eq, Structural, Debug)]
pub enum AttemptDecision {
    Succeed,
    BackoffThenRetry { next_attempt: usize, delay_ms: u64 },
    Exhaust,
}

/// The terminal verdict of one governed call.
#[derive(Clone, Copy, PartialEq, Eq, Structural, Debug)]
pub enum CallVerdict {
    /// The transport reported success on some attempt within the budget.
    Succeeded,
    /// A retry was due but the envelope could not be duplicated.
    CloneFailed,
    /// Every attempt in the budget failed.
    Exhausted,
}

/// The per-call retry coordinator: after each transport outcome it decides
/// whether to stop, fail, or schedule another attempt after a backoff delay.
/// `attempts` is the retry budget: the number of retries allowed after the
/// first attempt.
#[derive(Clone, Copy, Debug)]
pub struct RetryPolicy {
    pub attempts: usize,
    pub backoff_base_ms: u64,
}

impl RetryPolicy {
    /// The backoff delay before attempt `attempt`, saturating at the largest
    /// representable delay.
    pub fn backoff_ms(&self, attempt: usize) -> (r: u64)
        requires
            1 <= attempt,
        ensures
            r as nat == sat64(spec_backoff_ms(self.backoff_base_ms as nat, attempt as nat)),
    {
        let base = self.backoff_base_ms;
        if attempt == 1 {
            base
        } else if attempt == 2 {
            if base > u64::MAX / 2 {
                u64::MAX
            } else {
                base * 2
            }
        } else if attempt == 3 {
            if base > u64::MAX / 4 {
                u64::MAX
            } else {
                base * 4
            }
        } else {
            if base > u64::MAX / 8 {
                u64::MAX
            } else {
                base * 8
            }
        }
    }

    /// Decide, after the outcome of attempt `attempt` (numbered from 0),
    /// whether the call is done, exhausted, or to be retried: a success is
    /// never retried, and a failure is retried exactly while the retry budget
    /// is not yet used up.
    pub fn retry(&self, attempt: usize, ok: bool) -> (d: AttemptDecision)
        ensures
            ok ==> d == AttemptDecision::Succeed,
            !ok && attempt < self.attempts ==> (d matches AttemptDecision::BackoffThenRetry {
                next_attempt,
                delay_ms,
            } && next_attempt == attempt + 1 && delay_ms as nat == sat64(
                spec_backoff_ms(self.backoff_base_ms as nat, (attempt + 1) as nat),
            )),
            !ok && attempt >= self.attempts ==> d == AttemptDecision::Exhaust,
    {
        if ok {
            AttemptDecision::Succeed
        } else if attempt < self.attempts {
            let next_attempt = attempt + 1;
            AttemptDecision::BackoffThenRetry {
                next_attempt,
                delay_ms: self.backoff_ms(next_attempt),
            }
        } else {
            AttemptDecision::Exhaust
        }
    }

    /// Duplicate the envelope for the next retried attempt; `None` exactly
    /// when the envelope is not replayable.
    pub fn clone_request(&self, req: &ClonableRequest) -> (r: Option<ClonableRequest>)
        ensures
            r is Some <==> req.cloneable(),
            r matches Some(c) ==> c.0.equivalent(&req.0),
    {
        match req.try_clone() {
            Ok(c) => Some(c),
            Err(_) => None,
        }
    }
}

/// The verdict of a call whose transport attempts, starting at attempt `n`,
/// see the outcomes `outcomes` (attempt `i` succeeds iff `outcomes[i]`),
/// under a budget of `max` retries, on an envelope that can or cannot be
/// duplicated. The script is assumed long enough to cover every attempt.
pub open spec fn call_verdict_from(
    max: nat,
    cloneable: bool,
    outcomes: Seq<bool>,
    n: nat,
) -> CallVerdict
    decreases outcomes.len() - n,
{
    if n >= outcomes.len() {
        CallVerdict::Exhausted
    } else if outcomes[n as int] {
        CallVerdict::Succeeded
    } else if n >= max {
        CallVerdict::Exhausted
    } else if !cloneable {
        CallVerdict::CloneFailed
    } else {
        call_verdict_from(max, cloneable, outcomes, n + 1)
    }
}

/// The number of transport attempts such a call makes from attempt `n` on.
pub open spec fn attempts_used_from(
    max: nat,
    cloneable: bool,
    outcomes: Seq<bool>,
    n: nat,
) -> nat
    decreases outcomes.len() - n,
{
    if n >= outcomes.len() {
        0
    } else if outcomes[n as int] {
        1
    } else if n >= max {
        1
    } else if !cloneable {
        1
    } else {
        1 + attempts_used_from(max, cloneable, outcomes, n + 1)
    }
}

/// The verdict of a whole call, from its first attempt.
pub open spec fn call_verdict(max: nat, cloneable: bool, outcomes: Seq<bool>) -> CallVerdict {
    call_verdict_from(max, cloneable, outcomes, 0)
}

/// The number of transport attempts a whole call makes.
pub open spec fn attempts_used(max: nat, cloneable: bool, outcomes: Seq<bool>) -> nat {
    attempts_used_from(max, cloneable, outcomes, 0)
}

proof fn lemma_retry_success_from(max: nat, outcomes: Seq<bool>, k: nat, n: nat)
    requires
        n < k <= outcomes.len(),
        forall|i: int| 0 <= i < k - 1 ==> !outcomes[i],
        outcomes[k - 1],
        k - 1 <= max,
    ensures
        call_verdict_from(max, true, outcomes, n) == CallVerdict::Succeeded,
        attempts_used_from(max, true, outcomes, n) == k - n,
    decreases k - n,
{
    if n < k - 1 {
        lemma_retry_success_from(max, outcomes, k, n + 1);
    }
}

/// Retry success: if the transport fails on attempts `0 .. k-1` and succeeds
/// on attempt `k-1`, and the retry budget covers `k-1` retries, a call on a
/// replayable envelope succeeds after exactly `k` transport attempts.
pub proof fn lemma_retry_success(max: nat, outcomes: Seq<bool>, k: nat)
    requires
        1 <= k <= outcomes.len(),
        forall|i: int| 0 <= i < k - 1 ==> !outcomes[i],
        outcomes[k - 1],
        k - 1 <= max,
    ensures
        call_verdict(max, true, outcomes) == CallVerdict::Succeeded,
        attempts_used(max, true, outcomes) == k,
{
    lemma_retry_success_from(max, outcomes, k, 0);
}

proof fn lemma_retry_exhaustion_from(max: nat, outcomes: Seq<bool>, n: nat)
    requires
        outcomes.len() > max,
        forall|i: int| 0 <= i < outcomes.len() ==> !outcomes[i],
        n <= max,
    ensures
        call_verdict_from(max, true, outcomes, n) == CallVerdict::Exhausted,
        attempts_used_from(max, true, outcomes, n) == max + 1 - n,
    decreases max - n,
{
    if n < max {
        lemma_retry_exhaustion_from(max, outcomes, n + 1);
    }
}

/// Retry exhaustion: against a transport that always fails, a call on a
/// replayable envelope with a budget of `max` retries ends exhausted after
/// exactly `max + 1` transport attempts.
pub proof fn lemma_retry_exhaustion(max: nat, outcomes: Seq<bool>)
    requires
        outcomes.len() > max,
        forall|i: int| 0 <= i < outcomes.len() ==> !outcomes[i],
    ensures
        call_verdict(max, true, outcomes) == CallVerdict::Exhausted,
        attempts_used(max, true, outcomes) == max + 1,
{
    lemma_retry_exhaustion_from(max, outcomes, 0);
}

/// Clone failure short-circuits retry: on an envelope that cannot be
/// duplicated, a first-attempt failure with retry budget remaining ends the
/// call at once, after exactly one transport attempt.
pub proof fn lemma_clone_failure_short_circuit(max: nat, outcomes: Seq<bool>)
    requires
        outcomes.len() >= 1,
        !outcomes[0],
        max >= 1,
    ensures
        call_verdict(max, false, outcomes) == CallVerdict::CloneFailed,
        attempts_used(max, false, outcomes) == 1,
{
}

impl RetryPolicy {
    /// Drive one call against a scripted transport: `outcomes[i]` is the
    /// result of transport attempt `i`. Before each retried attempt the
    /// envelope is duplicated, as a live retry would require. Returns the
    /// terminal verdict and the number of transport attempts made.
    pub fn simulate_call(&self, request: &ClonableRequest, outcomes: &Vec<bool>) -> (r: (
        CallVerdict,
        usize,
    ))
        requires
            outcomes.len() > self.attempts,
        ensures
            r.0 == call_verdict(self.attempts as nat, request.cloneable(), outcomes@),
            r.1 as nat == attempts_used(self.attempts as nat, request.cloneable(), outcomes@),
    {
        let ghost max = self.attempts as nat;
        let ghost cloneable = request.cloneable();
        let mut attempt: usize = 0;
        loop
            invariant
                max == self.attempts as nat,
                cloneable == request.cloneable(),
                outcomes.len() > self.attempts,
                attempt <= self.attempts,
                call_verdict(max, cloneable, outcomes@) == call_verdict_from(
                    max,
                    cloneable,
                    outcomes@,
                    attempt as nat,
                ),
                attempts_used(max, cloneable, outcomes@) == attempt + attempts_used_from(
                    max,
                    cloneable,
                    outcomes@,
                    attempt as nat,
                ),
            decreases outcomes.len() - attempt,
        {
            let ok = outcomes[attempt];
            match self.retry(attempt, ok) {
                AttemptDecision::Succeed => {
                    proof {
                        assert(ok);
                        assert(call_verdict_from(max, cloneable, outcomes@, attempt as nat)
                            == CallVerdict::Succeeded);
                        assert(attempts_used_from(max, cloneable, outcomes@, attempt as nat) == 1);
                    }
                    return (CallVerdict::Succeeded, attempt + 1);
                },
                AttemptDecision::Exhaust => {
                    proof {
                        assert(!ok && attempt >= self.attempts);
                        assert(call_verdict_from(max, cloneable, outcomes@, attempt as nat)
                            == CallVerdict::Exhausted);
                        assert(attempts_used_from(max, cloneable, outcomes@, attempt as nat) == 1);
                    }
                    return (CallVerdict::Exhausted, attempt + 1);
                },
                AttemptDecision::BackoffThenRetry { next_attempt, delay_ms: _ } => {
                    proof {
                        assert(!ok && attempt < self.attempts);
                    }
                    match self.clone_request(request) {
                        None => {
                            proof {
                                assert(!cloneable);
                                assert(call_verdict_from(max, cloneable, outcomes@, attempt as nat)
                                    == CallVerdict::CloneFailed);
                                assert(attempts_used_from(max, cloneable, outcomes@, attempt as nat)
                                    == 1);
                            }
                            return (CallVerdict::CloneFailed, attempt + 1);
                        },
                        Some(_) => {
                            proof {
                                assert(cloneable);
                                assert(call_verdict_from(max, cloneable, outcomes@, attempt as nat)
                                    == call_verdict_from(
                                    max,
                                    cloneable,
                                    outcomes@,
                                    (attempt + 1) as nat,
                                ));
                                assert(attempts_used_from(max, cloneable, outcomes@, attempt as nat)
                                    == 1 + attempts_used_from(
                                    max,
                                    cloneable,
                                    outcomes@,
                                    (attempt + 1) as nat,
                                ));
                            }
                            attempt = next_attempt;
                        },
                    }
                },
            }
        }
    }
}

} // verus!
