use openposterdb_api::retry::{
    add_jitter, backoff_delay, with_jitter, fanart_retry, mdblist_retry, omdb_retry, retry_after_delay, retry_step, tmdb_api_retry,
    tmdb_cdn_retry, trakt_retry, AttemptOutcome, RetryConfig, RetryStep,
};

#[test]
fn backoff_respects_max_delay() {
    let config = RetryConfig {
        max_retries: 5,
        base_delay_ms: 1000,
        max_delay_ms: 4000,
        service_name: "test",
    };
    let delay = backoff_delay(&config, 3);
    assert!(delay <= 5000);
    assert!(delay >= 4000);
}

#[test]
fn backoff_first_attempt() {
    let config = RetryConfig {
        max_retries: 2,
        base_delay_ms: 500,
        max_delay_ms: 4000,
        service_name: "test",
    };
    let delay = backoff_delay(&config, 0);
    assert!(delay >= 500);
    assert!(delay <= 625);
}

// --- own tests ---

fn test_config() -> RetryConfig {
    RetryConfig { max_retries: 2, base_delay_ms: 100, max_delay_ms: 1000, service_name: "test" }
}

#[test]
fn service_policies() {
    let c = tmdb_api_retry();
    assert_eq!((c.max_retries, c.base_delay_ms, c.max_delay_ms, c.service_name), (2, 500, 4000, "tmdb"));
    let c = tmdb_cdn_retry();
    assert_eq!((c.max_retries, c.base_delay_ms, c.max_delay_ms, c.service_name), (2, 1000, 8000, "tmdb-cdn"));
    let c = fanart_retry();
    assert_eq!((c.max_retries, c.base_delay_ms, c.max_delay_ms, c.service_name), (3, 1000, 8000, "fanart"));
    for c in [omdb_retry(), mdblist_retry(), trakt_retry()] {
        assert_eq!((c.max_retries, c.base_delay_ms, c.max_delay_ms), (1, 2000, 2000));
    }
}

#[test]
fn backoff_doubles_until_cap() {
    let config = test_config();
    let d1 = backoff_delay(&config, 1);
    assert!((200..=250).contains(&d1));
    let d3 = backoff_delay(&config, 3);
    assert!((800..=1000).contains(&d3));
    let d4 = backoff_delay(&config, 4);
    assert!((1000..=1250).contains(&d4));
}

#[test]
fn retry_after_header_respected_and_capped() {
    let config = test_config();
    let d = retry_after_delay(Some(" 0 "), &config, 0);
    assert_eq!(d, 0);
    let d = retry_after_delay(Some("60"), &config, 0);
    assert!((1000..=1250).contains(&d));
    // Unreadable header: backoff instead.
    let d = retry_after_delay(Some("soon"), &config, 1);
    assert!((200..=250).contains(&d));
}

#[test]
fn success_is_returned_at_once() {
    let config = test_config();
    let s = retry_step(&config, 0, AttemptOutcome::Answered { status: 200, retry_after: None });
    assert_eq!(s, RetryStep::ReturnResponse);
    for status in [400u16, 401, 403, 404] {
        let s = retry_step(&config, 0, AttemptOutcome::Answered { status, retry_after: None });
        assert_eq!(s, RetryStep::ReturnResponse);
    }
}

#[test]
fn transient_failures_are_retried_until_exhausted() {
    let config = test_config();
    for status in [429u16, 500, 502, 503] {
        let s = retry_step(&config, 0, AttemptOutcome::Answered { status, retry_after: None });
        assert!(matches!(s, RetryStep::Retry { .. }));
        let s = retry_step(&config, 2, AttemptOutcome::Answered { status, retry_after: None });
        assert_eq!(s, RetryStep::ReturnResponse);
    }
    assert!(matches!(retry_step(&config, 1, AttemptOutcome::Failed), RetryStep::Retry { .. }));
    assert_eq!(retry_step(&config, 2, AttemptOutcome::Failed), RetryStep::ReturnError);
}

#[test]
fn rate_limit_waits_for_retry_after() {
    let config = test_config();
    let s = retry_step(&config, 0, AttemptOutcome::Answered { status: 429, retry_after: Some("0") });
    assert_eq!(s, RetryStep::Retry { delay_ms: 0 });
}

#[test]
fn jitter_is_added_and_saturates() {
    assert_eq!(with_jitter(1000, 130), 1130);
    assert_eq!(with_jitter(u64::MAX - 1, 5), u64::MAX);
    for _ in 0..20 {
        let d = add_jitter(1000);
        assert!((1000..=1250).contains(&d));
    }
    assert_eq!(add_jitter(u64::MAX), u64::MAX);
}

#[test]
fn huge_max_delay_saturates() {
    let config = RetryConfig { max_retries: 2, base_delay_ms: u64::MAX, max_delay_ms: u64::MAX, service_name: "big" };
    assert_eq!(backoff_delay(&config, 1), u64::MAX);
}
