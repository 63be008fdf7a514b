use cielo_rs_sdk::retry::{
    HttpResponse, Retry, Retryable, RetryPolicy, TransportError, get_retry_strategy, run_retries,
};

fn response(status: u16, body: &str) -> Result<HttpResponse, TransportError> {
    Ok(HttpResponse { status, body: body.to_string() })
}

fn transport(retryable: bool, message: &str) -> Result<HttpResponse, TransportError> {
    Err(TransportError { retryable, message: message.to_string() })
}

#[test]
fn non_success_status_is_transient() {
    let strategy = Retry;
    assert_eq!(strategy.handle(&response(500, "boom")), Some(Retryable::Transient));
    assert_eq!(strategy.handle(&response(404, "missing")), Some(Retryable::Transient));
    assert_eq!(strategy.handle(&response(429, "slow down")), Some(Retryable::Transient));
    assert_eq!(strategy.handle(&response(200, "ok")), None);
}

#[test]
fn transport_failures_follow_request_failure_rule() {
    let strategy = Retry;
    assert_eq!(strategy.handle(&transport(true, "connection reset")), Some(Retryable::Transient));
    assert_eq!(strategy.handle(&transport(false, "builder error")), Some(Retryable::Fatal));
}

#[test]
fn stops_at_first_success() {
    let policy = get_retry_strategy(500, 1000, 3);
    let outcomes = vec![
        response(500, "first"),
        response(502, "second"),
        response(200, "the answer"),
        response(500, "never seen"),
    ];
    let (attempts, last) = run_retries(&policy, outcomes);
    assert_eq!(attempts, 3);
    assert_eq!(last, response(200, "the answer"));
}

#[test]
fn immediate_success_is_one_attempt() {
    let policy = get_retry_strategy(500, 1000, 3);
    let outcomes = vec![response(200, "ok")];
    let (attempts, last) = run_retries(&policy, outcomes);
    assert_eq!(attempts, 1);
    assert_eq!(last, response(200, "ok"));
}

#[test]
fn exhaustion_returns_last_outcome_as_it_came() {
    let policy = get_retry_strategy(500, 1000, 3);
    let outcomes = vec![
        response(500, "one"),
        response(500, "two"),
        response(500, "three"),
        response(500, "four"),
        response(500, "never reached"),
    ];
    let (attempts, last) = run_retries(&policy, outcomes);
    assert_eq!(attempts, 4);
    assert_eq!(last, response(500, "four"));
}

#[test]
fn fatal_transport_failure_stops_the_run() {
    let policy = get_retry_strategy(500, 1000, 3);
    let outcomes = vec![response(500, "one"), transport(false, "malformed request")];
    let (attempts, last) = run_retries(&policy, outcomes);
    assert_eq!(attempts, 2);
    assert_eq!(last, transport(false, "malformed request"));
}

#[test]
fn backoff_doubles_from_floor_to_ceiling() {
    let policy = RetryPolicy { min_retry_interval: 100, max_retry_interval: 1000, max_retries: 3 };
    assert_eq!(policy.backoff_delay(0), 100);
    assert_eq!(policy.backoff_delay(1), 200);
    assert_eq!(policy.backoff_delay(2), 400);
    assert_eq!(policy.backoff_delay(3), 800);
    assert_eq!(policy.backoff_delay(4), 1000);
    assert_eq!(policy.backoff_delay(5), 1000);
}

#[test]
fn default_bounds_reach_the_ceiling_at_once() {
    let policy = get_retry_strategy(500, 1000, 3);
    assert_eq!(policy.backoff_delay(0), 500);
    assert_eq!(policy.backoff_delay(1), 1000);
    assert_eq!(policy.backoff_delay(2), 1000);
}
