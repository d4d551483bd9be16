//! One dispatch step at a time: rate-limit retries, cache lifetimes, and
//! the empty-body convention.

use aspotify::dispatch::{
    cache_lifetime_seconds, device_query, on_response, opt_body, retry_after_seconds,
    DispatchStep,
};
use aspotify::errors::Error;

#[test]
fn rate_limited_then_success() {
    // First response: 429 with Retry-After: 1.
    let step = on_response(429, Some("1"), &vec![], String::new(), 0);
    let wait = match step {
        DispatchStep::Retry { wait_seconds } => wait_seconds,
        DispatchStep::Done(_) => panic!("a 429 must be retried, not surfaced"),
    };
    assert_eq!(wait, 1, "the server-directed wait is one second");
    // Second response, after the wait: 200 with a body.
    let step = on_response(200, None, &vec![], "payload".to_string(), wait * 1_000);
    match step {
        DispatchStep::Done(Ok(response)) => assert_eq!(response.data, "payload"),
        _ => panic!("the retried request's success must come through"),
    }
}

#[test]
fn only_429_is_retried() {
    for status in [200u16, 201, 204, 400, 401, 404, 500, 503] {
        let step = on_response(status, Some("1"), &vec![], "{}".to_string(), 0);
        assert!(matches!(step, DispatchStep::Done(_)), "status {} must not be retried", status);
    }
    assert!(matches!(
        on_response(429, None, &vec![], String::new(), 0),
        DispatchStep::Retry { wait_seconds: 2 }
    ));
}

#[test]
fn retry_after_defaults_to_two() {
    assert_eq!(retry_after_seconds(None), 2);
    assert_eq!(retry_after_seconds(Some("not a number")), 2);
    assert_eq!(retry_after_seconds(Some("")), 2);
    assert_eq!(retry_after_seconds(Some("7")), 7);
    assert_eq!(retry_after_seconds(Some("0")), 0);
    assert_eq!(retry_after_seconds(Some("+3")), 3);
    assert_eq!(retry_after_seconds(Some("99999999999999999999999999")), 2);
}

#[test]
fn cache_lifetime_takes_the_first_max_age() {
    assert_eq!(cache_lifetime_seconds(&vec!["private, max-age=300".to_string()]), 300);
    assert_eq!(
        cache_lifetime_seconds(&vec![
            "no-store".to_string(),
            "MAX-AGE=60, public".to_string(),
            "max-age=999".to_string(),
        ]),
        60
    );
    assert_eq!(cache_lifetime_seconds(&vec![]), 0);
    assert_eq!(cache_lifetime_seconds(&vec!["no-cache, no-store".to_string()]), 0);
    // The directive's value is read as-is: a spaced value does not parse.
    assert_eq!(cache_lifetime_seconds(&vec!["max-age = 20".to_string()]), 0);
    assert_eq!(cache_lifetime_seconds(&vec!["  Max-Age=42  ".to_string()]), 42);
}

#[test]
fn success_carries_the_cache_expiry() {
    let headers = vec!["public, max-age=120".to_string()];
    match on_response(200, None, &headers, "x".to_string(), 5_000) {
        DispatchStep::Done(Ok(response)) => assert_eq!(response.expires, 125_000),
        _ => panic!("expected a completed success"),
    }
}

#[test]
fn failure_carries_the_error_envelope() {
    let body = r#"{"error":{"status":404,"message":"Not found"}}"#.to_string();
    match on_response(404, None, &vec![], body, 0) {
        DispatchStep::Done(Err(Error::Endpoint(e))) => {
            assert_eq!(e.status, 404);
            assert_eq!(e.message, "Not found");
            assert_eq!(e.reason, None);
        }
        _ => panic!("a non-success body must be read as an error envelope"),
    }
}

#[test]
fn failure_without_envelope_is_a_parse_error() {
    let step = on_response(500, None, &vec![], "<html>oops</html>".to_string(), 0);
    assert!(matches!(step, DispatchStep::Done(Err(Error::Parse(_)))));
}

#[test]
fn empty_body_means_none() {
    assert_eq!(opt_body(String::new()), None);
    assert_eq!(opt_body("{}".to_string()), Some("{}".to_string()));
}

#[test]
fn device_query_names_the_device() {
    assert_eq!(device_query("abc"), ("device_id", "abc"));
}
