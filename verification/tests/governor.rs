use oanda_rs::governor::{terminal_error, Governor, GovernorConfig, GovernorError, TransportError};
use oanda_rs::policies::admission::AdmissionQueue;
use oanda_rs::policies::concurrency::ConcurrencyLimiter;
use oanda_rs::policies::rate_limiter::RateLimiter;
use oanda_rs::policies::retry_policy::CallVerdict;
use oanda_rs::utils::clonable_request::{
    ClonableRequest, HttpMethod, RequestBody, RequestEnvelope,
};

fn envelope(url: &str) -> ClonableRequest {
    ClonableRequest::new(RequestEnvelope {
        method: HttpMethod::Get,
        url: url.to_string(),
        headers: Vec::new(),
        body: RequestBody::Empty,
    })
}

fn config(rate: u64, buffer: usize, conc: u64, retries: usize) -> GovernorConfig {
    GovernorConfig {
        rate_limit_per_second: rate,
        buffer_capacity: buffer,
        concurrency_limit: conc,
        max_retry_attempts: retries,
        backoff_base_ms: 1000,
    }
}

#[test]
fn governor_rejects_zero_limits() {
    assert!(matches!(
        Governor::new(config(0, 10, 1, 0)),
        Err(GovernorError::Config)
    ));
    assert!(matches!(
        Governor::new(config(1, 0, 1, 0)),
        Err(GovernorError::Config)
    ));
    assert!(matches!(
        Governor::new(config(1, 10, 0, 0)),
        Err(GovernorError::Config)
    ));
    assert!(Governor::new(config(1, 1, 1, 0)).is_ok());
}

#[test]
fn config_new_validates() {
    assert!(GovernorConfig::new(2, 10, 1, 0, 500).is_ok());
    assert!(matches!(
        GovernorConfig::new(0, 10, 1, 0, 500),
        Err(GovernorError::Config)
    ));
}

#[test]
fn backpressure_one_rejection() {
    // Capacity 3: of 4 simultaneous submissions, exactly one is rejected.
    let mut g = Governor::new(config(10, 3, 2, 0)).unwrap();
    let mut rejected = 0;
    for i in 0..4 {
        let url = format!("call-{}", i);
        match g.submit(envelope(&url)) {
            Ok(()) => {}
            Err(GovernorError::CapacityExceeded) => rejected += 1,
            Err(other) => panic!("unexpected error: {:?}", other),
        }
    }
    assert_eq!(rejected, 1);
    assert_eq!(g.queue_len(), 3);
}

#[test]
fn admission_is_first_in_first_out() {
    let mut g = Governor::new(config(10, 5, 2, 0)).unwrap();
    g.submit(envelope("a")).unwrap();
    g.submit(envelope("b")).unwrap();
    g.submit(envelope("c")).unwrap();
    assert_eq!(g.next_admitted().unwrap().into_inner().url, "a");
    assert_eq!(g.next_admitted().unwrap().into_inner().url, "b");
    assert_eq!(g.next_admitted().unwrap().into_inner().url, "c");
    assert!(g.next_admitted().is_none());
}

#[test]
fn concurrency_slots_cap_in_flight() {
    let mut g = Governor::new(config(100, 5, 2, 0)).unwrap();
    assert!(g.try_start_attempt(0));
    assert!(g.try_start_attempt(0));
    // Both slots held: a third start is denied however many tokens remain.
    assert!(!g.try_start_attempt(0));
    assert_eq!(g.in_flight(), 2);
    g.finish_attempt();
    assert!(g.try_start_attempt(1));
    assert_eq!(g.in_flight(), 2);
}

#[test]
fn rate_tokens_cap_starts_per_window() {
    let mut g = Governor::new(config(2, 5, 5, 0)).unwrap();
    assert!(g.try_start_attempt(0));
    assert!(g.try_start_attempt(0));
    assert!(!g.try_start_attempt(0));
    g.finish_attempt();
    g.finish_attempt();
    // Still inside the window that holds both starts.
    assert!(!g.try_start_attempt(999));
    // A full second after the starts, the window has drained.
    assert!(g.try_start_attempt(1000));
}

#[test]
fn rate_limiter_rejects_zero_rate() {
    assert!(RateLimiter::new(0).is_err());
    assert!(RateLimiter::new(1).is_ok());
}

#[test]
fn burst_submission_counts_rejections() {
    let mut q: AdmissionQueue<u32> = AdmissionQueue::new(3);
    let rejected = q.submit_all(vec![10, 20, 30, 40]);
    assert_eq!(rejected, 1);
    assert_eq!(q.len(), 3);
    assert_eq!(q.pop_front(), Some(10));
    assert_eq!(q.pop_front(), Some(20));
    assert_eq!(q.pop_front(), Some(30));
    assert_eq!(q.pop_front(), None);
}

#[test]
fn rate_limiter_rolling_window() {
    let mut rl = RateLimiter::new(3).unwrap();
    assert_eq!(rl.rate(), 3);
    assert!(rl.try_acquire(0));
    assert!(rl.try_acquire(400));
    assert!(rl.try_acquire(800));
    assert!(!rl.try_acquire(900));
    // The start at 0 ages out at 1000; the ones at 400 and 800 remain.
    assert!(rl.try_acquire(1000));
    assert!(!rl.try_acquire(1100));
    assert!(rl.try_acquire(1400));
}

#[test]
fn concurrency_limiter_acquire_release() {
    let mut c = ConcurrencyLimiter::new(1);
    assert!(c.has_capacity());
    assert!(c.try_acquire());
    assert!(!c.try_acquire());
    assert_eq!(c.in_flight(), 1);
    c.release();
    assert!(c.try_acquire());
}

#[test]
fn admission_queue_bounds_and_returns() {
    let mut q: AdmissionQueue<u32> = AdmissionQueue::new(2);
    assert!(q.is_empty());
    assert!(q.submit(1).is_ok());
    assert!(q.submit(2).is_ok());
    assert_eq!(q.submit(3), Err(3));
    assert_eq!(q.len(), 2);
    assert_eq!(q.pop_front(), Some(1));
    assert!(q.submit(3).is_ok());
    assert_eq!(q.pop_front(), Some(2));
    assert_eq!(q.pop_front(), Some(3));
    assert_eq!(q.pop_front(), None);
}

#[test]
fn verdicts_map_to_errors() {
    let failure = TransportError { message: "connection reset".to_string() };
    assert!(terminal_error(CallVerdict::Succeeded, failure.clone()).is_none());
    assert!(matches!(
        terminal_error(CallVerdict::CloneFailed, failure.clone()),
        Some(GovernorError::CloneFailure)
    ));
    match terminal_error(CallVerdict::Exhausted, failure.clone()) {
        Some(GovernorError::RetriesExhausted(f)) => assert_eq!(f, failure),
        other => panic!("unexpected: {:?}", other),
    }
}

#[test]
fn execute_call_retries_to_success() {
    let mut g = Governor::new(config(1, 5, 1, 3)).unwrap();
    let outcomes = vec![false, false, true, true];
    let (verdict, attempts, end) = g.execute_call(&envelope("x"), &outcomes, 0);
    assert_eq!(verdict, CallVerdict::Succeeded);
    assert_eq!(attempts, 3);
    assert_eq!(g.in_flight(), 0);
    // With one start allowed per second, three attempts span two full
    // seconds.
    assert!(end >= 2000);
}

#[test]
fn execute_call_exhausts_budget() {
    let mut g = Governor::new(config(10, 5, 1, 2)).unwrap();
    let outcomes = vec![false, false, false];
    let (verdict, attempts, _) = g.execute_call(&envelope("x"), &outcomes, 0);
    assert_eq!(verdict, CallVerdict::Exhausted);
    assert_eq!(attempts, 3);
    assert_eq!(g.in_flight(), 0);
}

#[test]
fn execute_call_stops_on_clone_failure() {
    let mut g = Governor::new(config(10, 5, 1, 2)).unwrap();
    let request = ClonableRequest::new(RequestEnvelope {
        method: HttpMethod::Get,
        url: "one-shot".to_string(),
        headers: Vec::new(),
        body: RequestBody::Streaming,
    });
    let outcomes = vec![false, true, true];
    let (verdict, attempts, _) = g.execute_call(&request, &outcomes, 0);
    assert_eq!(verdict, CallVerdict::CloneFailed);
    assert_eq!(attempts, 1);
}

/// The concrete pacing scenario: rate 2/s, one slot, buffer 10, no retries;
/// five calls issued at t = 0 against a transport that always succeeds and
/// returns within 100 ms. All five finish, never two in flight, and no
/// rolling second holds more than two starts.
#[test]
fn five_calls_paced_by_rate_and_concurrency() {
    let mut g = Governor::new(config(2, 10, 1, 0)).unwrap();
    for i in 0..5 {
        let url = format!("call-{}", i);
        g.submit(envelope(&url)).unwrap();
    }

    let mut starts: Vec<u64> = Vec::new();
    let mut now: u64 = 0;
    let mut in_flight_until: Option<u64> = None;
    let mut pending = Vec::new();
    while let Some(req) = g.next_admitted() {
        pending.push(req);
    }
    assert_eq!(pending.len(), 5);

    let mut done = 0;
    while done < 5 {
        if let Some(t) = in_flight_until {
            if now >= t {
                g.finish_attempt();
                in_flight_until = None;
                done += 1;
            }
        }
        assert!(g.in_flight() <= 1);
        if in_flight_until.is_none() && !pending.is_empty() && g.try_start_attempt(now) {
            pending.remove(0);
            starts.push(now);
            in_flight_until = Some(now + 100);
        }
        now += 50;
        assert!(now < 60_000, "scenario did not converge");
    }

    assert_eq!(starts.len(), 5);
    // Never more than two starts in any rolling one-second window.
    for &t in &starts {
        let in_window = starts
            .iter()
            .filter(|&&s| s >= t && s < t + 1000)
            .count();
        assert!(in_window <= 2, "window at {} holds {}", t, in_window);
    }
    // With rate 2/s the five calls need at least two full seconds.
    assert!(*starts.last().unwrap() >= 2000);
}
