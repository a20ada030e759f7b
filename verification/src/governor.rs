use vstd::prelude::*;

use crate::policies::admission::AdmissionQueue;
use crate::policies::concurrency::ConcurrencyLimiter;
use crate::policies::rate_limiter::{count_in_window, lemma_window_clear, RateLimiter};
use crate::policies::retry_policy::{
    attempts_used, attempts_used_from, call_verdict, call_verdict_from, AttemptDecision,
    CallVerdict, RetryPolicy,
};
use crate::utils::clonable_request::ClonableRequest;

verus! {

/// A failure reported by the transport boundary for one attempt, carried so
/// that an exhausted call can surface its last observed cause.
#[derive(Clone, PartialEq, Eq, Debug)]
pub struct TransportError {
    pub message: String,
}

/// The governor's error taxonomy.
#[derive(Debug)]
pub enum GovernorError {
    /// A construction parameter was not positive.
    Config,
    /// The admission queue was full; the caller may submit again later.
    CapacityExceeded,
    /// A retry was due but the envelope could not be duplicated; the call
    /// ends with no further attempts.
    CloneFailure,
    /// A failure from the transport boundary, before the retry budget ran
    /// out.
    Transport(TransportError),
    /// Every attempt in the retry budget failed; carries the last failure.
    RetriesExhausted(TransportError),
    /// The caller abandoned the call at a suspension point.
    Cancelled,
}

/// What a finished call hands its caller: nothing to report on success, the
/// clone failure as itself, and exhaustion carrying the last failure the
/// transport reported.
pub fn terminal_error(verdict: CallVerdict, last_failure: TransportError) -> (r: Option<
    GovernorError,
>)
    ensures
        verdict is Succeeded <==> r is None,
        verdict is CloneFailed ==> r == Some(GovernorError::CloneFailure),
        verdict is Exhausted ==> (r matches Some(e) && e matches GovernorError::RetriesExhausted(f)
            && f == last_failure),
{
    match verdict {
        CallVerdict::Succeeded => None,
        CallVerdict::CloneFailed => Some(GovernorError::CloneFailure),
        CallVerdict::Exhausted => Some(GovernorError::RetriesExhausted(last_failure)),
    }
}

/// The knobs of one governor, immutable after construction.
#[derive(Clone, Copy, Debug)]
pub struct GovernorConfig {
    /// Caps attempt starts per rolling second; must be positive.
    pub rate_limit_per_second: u64,
    /// Caps queued-but-not-yet-executing calls; must be positive.
    pub buffer_capacity: usize,
    /// Caps simultaneous transport calls; must be positive.
    pub concurrency_limit: u64,
    /// Caps retries after the first attempt; zero means no retries.
    pub max_retry_attempts: usize,
    /// The base delay unit for exponential backoff, in milliseconds.
    pub backoff_base_ms: u64,
}

impl GovernorConfig {
    /// Every limit that bounds a resource is positive.
    pub open spec fn valid(&self) -> bool {
        &&& self.rate_limit_per_second >= 1
        &&& self.buffer_capacity >= 1
        &&& self.concurrency_limit >= 1
    }

    /// A configuration, validated: zero limits fail construction rather than
    /// failing at call time.
    pub fn new(
        rate_limit_per_second: u64,
        buffer_capacity: usize,
        concurrency_limit: u64,
        max_retry_attempts: usize,
        backoff_base_ms: u64,
    ) -> (r: Result<GovernorConfig, GovernorError>)
        ensures
            r is Ok <==> (rate_limit_per_second >= 1 && buffer_capacity >= 1 && concurrency_limit
                >= 1),
            r matches Ok(c) ==> c == (GovernorConfig {
                rate_limit_per_second,
                buffer_capacity,
                concurrency_limit,
                max_retry_attempts,
                backoff_base_ms,
            }),
            r matches Err(e) ==> e is Config,
    {
        if rate_limit_per_second >= 1 && buffer_capacity >= 1 && concurrency_limit >= 1 {
            Ok(
                GovernorConfig {
                    rate_limit_per_second,
                    buffer_capacity,
                    concurrency_limit,
                    max_retry_attempts,
                    backoff_base_ms,
                },
            )
        } else {
            Err(GovernorError::Config)
        }
    }

    /// The per-call retry coordinator this configuration prescribes.
    pub fn retry_policy(&self) -> (r: RetryPolicy)
        ensures
            r.attempts == self.max_retry_attempts,
            r.backoff_base_ms == self.backoff_base_ms,
    {
        RetryPolicy { attempts: self.max_retry_attempts, backoff_base_ms: self.backoff_base_ms }
    }
}

/// The single entry point composing the admission queue, the rate limiter,
/// the concurrency limiter and the retry coordinator. One instance is shared
/// by many callers; all limiter state lives here.
pub struct Governor {
    config: GovernorConfig,
    queue: AdmissionQueue<ClonableRequest>,
    rate: RateLimiter,
    slots: ConcurrencyLimiter,
}

impl Governor {
    /// The configuration the governor was built with.
    pub closed spec fn spec_config(&self) -> GovernorConfig {
        self.config
    }

    /// The envelopes admitted and not yet handed to the execution stage, in
    /// arrival order.
    pub closed spec fn queued(&self) -> Seq<ClonableRequest> {
        self.queue.spec_entries()
    }

    /// Every attempt start the governor ever granted, in time order.
    pub closed spec fn starts(&self) -> Seq<u64> {
        self.rate.starts()
    }

    /// The number of attempts now in flight against the transport.
    pub closed spec fn spec_in_flight(&self) -> u64 {
        self.slots.spec_in_flight()
    }

    /// The time of the most recent gate call.
    pub closed spec fn spec_last_ms(&self) -> u64 {
        self.rate.spec_last()
    }

    /// The governor's invariant: each component is well formed and sized by
    /// a valid configuration.
    pub closed spec fn wf(&self) -> bool {
        &&& self.config.valid()
        &&& self.queue.wf()
        &&& self.queue.spec_capacity() == self.config.buffer_capacity
        &&& self.rate.wf()
        &&& self.rate.spec_rate() == self.config.rate_limit_per_second
        &&& self.slots.wf()
        &&& self.slots.spec_limit() == self.config.concurrency_limit
    }

    /// A governor for a validated configuration; zero limits are rejected
    /// here, with `Config`, never at call time.
    pub fn new(config: GovernorConfig) -> (r: Result<Governor, GovernorError>)
        ensures
            r is Ok <==> config.valid(),
            r matches Ok(g) ==> g.wf() && g.spec_config() == config && g.queued()
                == Seq::<ClonableRequest>::empty() && g.starts() == Seq::<u64>::empty()
                && g.spec_in_flight() == 0 && g.spec_last_ms() == 0,
            r matches Err(e) ==> e is Config,
    {
        if config.rate_limit_per_second >= 1 && config.buffer_capacity >= 1
            && config.concurrency_limit >= 1 {
            let rate = match RateLimiter::new(config.rate_limit_per_second) {
                Ok(rl) => rl,
                Err(_) => {
                    return Err(GovernorError::Config);
                },
            };
            Ok(
                Governor {
                    config,
                    queue: AdmissionQueue::new(config.buffer_capacity),
                    rate,
                    slots: ConcurrencyLimiter::new(config.concurrency_limit),
                },
            )
        } else {
            Err(GovernorError::Config)
        }
    }

    /// Admit one call into the bounded queue, or reject it at once with
    /// `CapacityExceeded` when the queue is full.
    pub fn submit(&mut self, request: ClonableRequest) -> (r: Result<(), GovernorError>)
        requires
            old(self).wf(),
        ensures
            final(self).wf(),
            final(self).spec_config() == old(self).spec_config(),
            final(self).starts() == old(self).starts(),
            final(self).spec_in_flight() == old(self).spec_in_flight(),
            final(self).spec_last_ms() == old(self).spec_last_ms(),
            r is Ok <==> old(self).queued().len() < old(self).spec_config().buffer_capacity,
            r is Ok ==> final(self).queued() == old(self).queued().push(request),
            r matches Err(e) ==> e is CapacityExceeded && final(self).queued() == old(self).queued(),
    {
        match self.queue.submit(request) {
            Ok(()) => Ok(()),
            Err(_) => Err(GovernorError::CapacityExceeded),
        }
    }

    /// Hand the oldest admitted call to the execution stage: calls enter
    /// execution in arrival order.
    pub fn next_admitted(&mut self) -> (r: Option<ClonableRequest>)
        requires
            old(self).wf(),
        ensures
            final(self).wf(),
            final(self).spec_config() == old(self).spec_config(),
            final(self).starts() == old(self).starts(),
            final(self).spec_in_flight() == old(self).spec_in_flight(),
            final(self).spec_last_ms() == old(self).spec_last_ms(),
            old(self).queued().len() == 0 ==> r is None && final(self).queued() == old(self).queued(),
            old(self).queued().len() > 0 ==> r == Some(old(self).queued()[0]) && final(self).queued() == old(self).queued().subrange(1, old(self).queued().len() as int),
    {
        self.queue.pop_front()
    }

    /// Gate the start of one transport attempt at time `now_ms`: granted
    /// exactly when a concurrency slot is free and fewer than the rate limit
    /// of starts lie in the rolling second ending now. On a grant the slot is
    /// held and the start is on record; a denied attempt changes no more than
    /// the limiter clock. Time never runs backwards between gate calls.
    pub fn try_start_attempt(&mut self, now_ms: u64) -> (granted: bool)
        requires
            old(self).wf(),
            now_ms >= old(self).spec_last_ms(),
        ensures
            final(self).wf(),
            final(self).spec_config() == old(self).spec_config(),
            final(self).queued() == old(self).queued(),
            granted <==> (old(self).spec_in_flight() < old(self).spec_config().concurrency_limit
                && count_in_window(old(self).starts(), now_ms as int) < old(self).spec_config().rate_limit_per_second),
            granted ==> final(self).starts() == old(self).starts().push(now_ms) && final(self).spec_in_flight() == old(self).spec_in_flight() + 1,
            !granted ==> final(self).starts() == old(self).starts() && final(self).spec_in_flight()
                == old(self).spec_in_flight(),
            old(self).spec_in_flight() < old(self).spec_config().concurrency_limit ==> final(self).spec_last_ms() == now_ms,
            old(self).spec_in_flight() >= old(self).spec_config().concurrency_limit ==> final(self).spec_last_ms() == old(self).spec_last_ms(),
    {
        if !self.slots.has_capacity() {
            return false;
        }
        if self.rate.try_acquire(now_ms) {
            let got_slot = self.slots.try_acquire();
            proof {
                assert(got_slot);
            }
            true
        } else {
            false
        }
    }

    /// Give the attempt's concurrency slot back, unconditionally, as soon as
    /// its transport call returns and before any backoff sleep. An attempt
    /// abandoned by its caller releases its slot the same way, so no slot
    /// outlives its call.
    pub fn finish_attempt(&mut self)
        requires
            old(self).wf(),
            old(self).spec_in_flight() >= 1,
        ensures
            final(self).wf(),
            final(self).spec_config() == old(self).spec_config(),
            final(self).queued() == old(self).queued(),
            final(self).starts() == old(self).starts(),
            final(self).spec_last_ms() == old(self).spec_last_ms(),
            final(self).spec_in_flight() == old(self).spec_in_flight() - 1,
    {
        self.slots.release();
    }

    /// The number of attempts now in flight.
    pub fn in_flight(&self) -> (r: u64)
        ensures
            r == self.spec_in_flight(),
    {
        self.slots.in_flight()
    }

    /// The number of admitted calls not yet executing.
    pub fn queue_len(&self) -> (r: usize)
        ensures
            r == self.queued().len(),
    {
        self.queue.len()
    }

    /// The per-call retry coordinator this governor prescribes.
    pub fn retry_policy(&self) -> (r: RetryPolicy)
        ensures
            r.attempts == self.spec_config().max_retry_attempts,
            r.backoff_base_ms == self.spec_config().backoff_base_ms,
    {
        self.config.retry_policy()
    }

    /// Run one admitted call to its terminal verdict against a scripted
    /// transport: attempt `i` reports `outcomes[i]`. Each attempt waits for
    /// the gates, holds its slot only while on the wire, and is retried
    /// exactly as the retry coordinator directs, duplicating the envelope
    /// first. The clock advances only as far as the rate gate requires;
    /// backoff sleeping is the runtime's business and consumes neither a
    /// slot nor a token. Returns the verdict, the number of transport
    /// attempts made, and the time the call ended.
    pub fn execute_call(&mut self, request: &ClonableRequest, outcomes: &Vec<bool>, now0: u64) -> (r: (
        CallVerdict,
        usize,
        u64,
    ))
        requires
            old(self).wf(),
            old(self).spec_in_flight() == 0,
            now0 >= old(self).spec_last_ms(),
            outcomes.len() > old(self).spec_config().max_retry_attempts,
            now0 + outcomes@.len() * 1000 <= u64::MAX,
        ensures
            final(self).wf(),
            final(self).spec_config() == old(self).spec_config(),
            final(self).queued() == old(self).queued(),
            final(self).spec_in_flight() == 0,
            r.0 == call_verdict(
                old(self).spec_config().max_retry_attempts as nat,
                request.cloneable(),
                outcomes@,
            ),
            r.1 as nat == attempts_used(
                old(self).spec_config().max_retry_attempts as nat,
                request.cloneable(),
                outcomes@,
            ),
            final(self).starts().len() == old(self).starts().len() + r.1,
            final(self).spec_last_ms() == r.2,
    {
        let ghost max = old(self).spec_config().max_retry_attempts as nat;
        let ghost cloneable = request.cloneable();
        let policy = self.retry_policy();
        let mut attempt: usize = 0;
        let mut now: u64 = now0;
        loop
            invariant
                max == policy.attempts as nat,
                cloneable == request.cloneable(),
                outcomes.len() > policy.attempts,
                attempt <= policy.attempts,
                self.wf(),
                self.spec_in_flight() == 0,
                self.spec_config() == old(self).spec_config(),
                self.spec_config().max_retry_attempts == policy.attempts,
                self.queued() == old(self).queued(),
                self.starts().len() == old(self).starts().len() + attempt,
                now >= self.spec_last_ms(),
                now <= now0 + attempt * 1000,
                now0 + outcomes@.len() * 1000 <= u64::MAX,
                call_verdict(max, cloneable, outcomes@) == call_verdict_from(
                    max,
                    cloneable,
                    outcomes@,
                    attempt as nat,
                ),
                attempts_used(max, cloneable, outcomes@) == attempt + attempts_used_from(
                    max,
                    cloneable,
                    outcomes@,
                    attempt as nat,
                ),
            decreases outcomes.len() - attempt,
        {
            let mut granted = self.try_start_attempt(now);
            if !granted {
                // Only the rate gate can have refused: no slot is held. One
                // window after the refusal every recorded start has aged out.
                now = now + 1000;
                proof {
                    self.rate.lemma_starts_bounded();
                    lemma_window_clear(self.starts(), now as int);
                }
                granted = self.try_start_attempt(now);
            }
            let ok = outcomes[attempt];
            self.finish_attempt();
            match policy.retry(attempt, ok) {
                AttemptDecision::Succeed => {
                    proof {
                        assert(ok);
                        assert(call_verdict_from(max, cloneable, outcomes@, attempt as nat)
                            == CallVerdict::Succeeded);
                        assert(attempts_used_from(max, cloneable, outcomes@, attempt as nat) == 1);
                    }
                    return (CallVerdict::Succeeded, attempt + 1, now);
                },
                AttemptDecision::Exhaust => {
                    proof {
                        assert(!ok && attempt >= policy.attempts);
                        assert(call_verdict_from(max, cloneable, outcomes@, attempt as nat)
                            == CallVerdict::Exhausted);
                        assert(attempts_used_from(max, cloneable, outcomes@, attempt as nat) == 1);
                    }
                    return (CallVerdict::Exhausted, attempt + 1, now);
                },
                AttemptDecision::BackoffThenRetry { next_attempt, delay_ms: _ } => {
                    proof {
                        assert(!ok && attempt < policy.attempts);
                    }
                    match policy.clone_request(request) {
                        None => {
                            proof {
                                assert(!cloneable);
                                assert(call_verdict_from(max, cloneable, outcomes@, attempt as nat)
                                    == CallVerdict::CloneFailed);
                                assert(attempts_used_from(max, cloneable, outcomes@, attempt as nat)
                                    == 1);
                            }
                            return (CallVerdict::CloneFailed, attempt + 1, now);
                        },
                        Some(_) => {
                            proof {
                                assert(cloneable);
                                assert(call_verdict_from(max, cloneable, outcomes@, attempt as nat)
                                    == call_verdict_from(
                                    max,
                                    cloneable,
                                    outcomes@,
                                    (attempt + 1) as nat,
                                ));
                                assert(attempts_used_from(max, cloneable, outcomes@, attempt as nat)
                                    == 1 + attempts_used_from(
                                    max,
                                    cloneable,
                                    outcomes@,
                                    (attempt + 1) as nat,
                                ));
                            }
                            attempt = next_attempt;
                        },
                    }
                },
            }
        }
    }

    /// Concurrency bound: the number of in-flight attempts never exceeds the
    /// configured concurrency limit.
    pub proof fn lemma_concurrency_bound(&self)
        requires
            self.wf(),
        ensures
            self.spec_in_flight() <= self.spec_config().concurrency_limit,
    {
    }

    /// Rate bound: at no instant does the rolling one-second window ending
    /// there contain more attempt starts than the configured rate limit.
    pub proof fn lemma_rate_bound(&self, t: int)
        requires
            self.wf(),
        ensures
            count_in_window(self.starts(), t) <= self.spec_config().rate_limit_per_second,
    {
        self.rate.lemma_rate_bound(t);
    }

    /// Attempt starts are recorded in time order.
    pub proof fn lemma_starts_ordered(&self, i: int, j: int)
        requires
            self.wf(),
            0 <= i <= j < self.starts().len(),
        ensures
            self.starts()[i] <= self.starts()[j],
    {
        self.rate.lemma_starts_ordered(i, j);
    }
}

} // verus!
