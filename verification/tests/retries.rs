use oanda_rs::policies::retry_policy::{AttemptDecision, CallVerdict, RetryPolicy};
use oanda_rs::utils::clonable_request::{
    ClonableRequest, HttpMethod, RequestBody, RequestEnvelope,
};
use oanda_rs::utils::try_clone::TryClone;

fn cloneable_request() -> ClonableRequest {
    ClonableRequest::new(RequestEnvelope {
        method: HttpMethod::Get,
        url: "one".to_string(),
        headers: vec![("Authorization".to_string(), "Bearer k".to_string())],
        body: RequestBody::Buffered(vec![1, 2, 3]),
    })
}

fn streaming_request() -> ClonableRequest {
    ClonableRequest::new(RequestEnvelope {
        method: HttpMethod::Get,
        url: "one".to_string(),
        headers: Vec::new(),
        body: RequestBody::Streaming,
    })
}

#[test]
fn retry_success_after_two_failures() {
    // Fails on attempts 0 and 1, succeeds on attempt 2: with budget for two
    // retries the call succeeds after exactly three transport attempts.
    let policy = RetryPolicy { attempts: 2, backoff_base_ms: 1000 };
    let outcomes = vec![false, false, true];
    let request = cloneable_request();
    let (verdict, attempts) = policy.simulate_call(&request, &outcomes);
    assert_eq!(verdict, CallVerdict::Succeeded);
    assert_eq!(attempts, 3);
}

#[test]
fn retry_success_first_attempt() {
    let policy = RetryPolicy { attempts: 5, backoff_base_ms: 1000 };
    let outcomes = vec![true, false, false, false, false, false];
    let request = cloneable_request();
    let (verdict, attempts) = policy.simulate_call(&request, &outcomes);
    assert_eq!(verdict, CallVerdict::Succeeded);
    assert_eq!(attempts, 1);
}

#[test]
fn retry_exhaustion_counts_attempts() {
    // Always failing, budget of three retries: exhausted after exactly four
    // transport attempts.
    let policy = RetryPolicy { attempts: 3, backoff_base_ms: 1000 };
    let outcomes = vec![false, false, false, false, false];
    let request = cloneable_request();
    let (verdict, attempts) = policy.simulate_call(&request, &outcomes);
    assert_eq!(verdict, CallVerdict::Exhausted);
    assert_eq!(attempts, 4);
}

#[test]
fn zero_budget_means_one_attempt() {
    let policy = RetryPolicy { attempts: 0, backoff_base_ms: 1000 };
    let outcomes = vec![false];
    let request = cloneable_request();
    let (verdict, attempts) = policy.simulate_call(&request, &outcomes);
    assert_eq!(verdict, CallVerdict::Exhausted);
    assert_eq!(attempts, 1);
}

#[test]
fn clone_failure_short_circuits() {
    // A non-replayable envelope, a first failure, and budget to spare: the
    // call ends with the clone failure after exactly one attempt.
    let policy = RetryPolicy { attempts: 3, backoff_base_ms: 1000 };
    let outcomes = vec![false, true, true, true];
    let request = streaming_request();
    let (verdict, attempts) = policy.simulate_call(&request, &outcomes);
    assert_eq!(verdict, CallVerdict::CloneFailed);
    assert_eq!(attempts, 1);
}

#[test]
fn backoff_doubles_then_caps() {
    let policy = RetryPolicy { attempts: 10, backoff_base_ms: 250 };
    assert_eq!(policy.backoff_ms(1), 250);
    assert_eq!(policy.backoff_ms(2), 500);
    assert_eq!(policy.backoff_ms(3), 1000);
    assert_eq!(policy.backoff_ms(4), 2000);
    assert_eq!(policy.backoff_ms(5), 2000);
    assert_eq!(policy.backoff_ms(9), 2000);
}

#[test]
fn backoff_saturates() {
    let policy = RetryPolicy { attempts: 10, backoff_base_ms: u64::MAX };
    assert_eq!(policy.backoff_ms(1), u64::MAX);
    assert_eq!(policy.backoff_ms(4), u64::MAX);
}

#[test]
fn retry_decisions() {
    let policy = RetryPolicy { attempts: 1, backoff_base_ms: 100 };
    assert_eq!(policy.retry(0, true), AttemptDecision::Succeed);
    assert_eq!(
        policy.retry(0, false),
        AttemptDecision::BackoffThenRetry { next_attempt: 1, delay_ms: 100 }
    );
    assert_eq!(policy.retry(1, false), AttemptDecision::Exhaust);

    let none = RetryPolicy { attempts: 0, backoff_base_ms: 100 };
    assert_eq!(none.retry(0, false), AttemptDecision::Exhaust);
}

#[test]
fn clone_request_copies_cloneable_envelopes() {
    let policy = RetryPolicy { attempts: 1, backoff_base_ms: 100 };
    let request = cloneable_request();
    let copy = policy.clone_request(&request).unwrap();
    let env = copy.into_inner();
    assert_eq!(env.url, "one");
    assert_eq!(env.headers.len(), 1);
    assert!(policy.clone_request(&streaming_request()).is_none());
}

#[test]
fn try_clone_is_deep_and_explicit() {
    let request = cloneable_request();
    let copy = request.try_clone().unwrap();
    let env = copy.into_inner();
    assert_eq!(env.url, "one");
    assert_eq!(env.headers[0].0, "Authorization");
    assert_eq!(env.headers[0].1, "Bearer k");
    match env.body {
        RequestBody::Buffered(b) => assert_eq!(b, vec![1, 2, 3]),
        other => panic!("wrong body: {:?}", other),
    }

    let bad = streaming_request();
    assert!(TryClone::try_clone(&bad).is_err());
}
