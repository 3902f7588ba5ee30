use polygon_mcp::client::{classify_reply, decimal_string, parse_u64, AttemptOutcome, HttpReply, RequestStart, RetryState};
use polygon_mcp::rate_limit::AcquireStep;
use polygon_mcp::{CacheConfig, ErrorResponse, PolygonClient, PolygonError, RateLimitConfig, RetryConfig};

fn response(status: u16, retry_after: Option<&str>, body: &str) -> HttpReply {
    HttpReply::Response {
        status,
        retry_after: retry_after.map(|s| s.to_string()),
        request_id: Some("req-1".to_string()),
        body: body.to_string(),
        error_body: None,
    }
}

#[test]
fn builds_client_with_explicit_key() {
    let client = PolygonClient::with_key("test-key").unwrap();
    assert_eq!(client.api_key(), "test-key");
}

#[test]
fn fails_without_api_key() {
    let result = PolygonClient::builder().build();
    assert!(matches!(result, Err(PolygonError::MissingApiKey)));
}

#[test]
fn builder_sets_custom_base_url() {
    let client = PolygonClient::builder()
        .api_key("test")
        .base_url("https://custom.api.com")
        .build()
        .unwrap();
    assert_eq!(client.base_url(), "https://custom.api.com");
}

#[test]
fn appends_api_key_to_url() {
    let client = PolygonClient::with_key("secret").unwrap();
    let url = client.append_api_key("https://api.polygon.io/v2/tickers").unwrap();
    assert!(url.contains("apiKey=secret"));
}

#[test]
fn appends_api_key_preserving_existing_params() {
    let client = PolygonClient::with_key("secret").unwrap();
    let url = client
        .append_api_key("https://api.polygon.io/v2/tickers?limit=10")
        .unwrap();
    assert!(url.contains("limit=10"));
    assert!(url.contains("apiKey=secret"));
}

#[test]
fn rate_limit_error_is_retryable() {
    let err = PolygonError::RateLimit { retry_after_secs: 1 };
    assert!(err.is_retryable());
}

#[test]
fn server_error_is_retryable() {
    let err = PolygonError::api_error(503, "Service Unavailable".to_string(), None);
    assert!(err.is_retryable());
}

#[test]
fn client_error_is_not_retryable() {
    let err = PolygonError::api_error(400, "Bad Request".to_string(), None);
    assert!(!err.is_retryable());
}

#[test]
fn builder_defaults_and_overrides() {
    let b = PolygonClient::builder();
    assert_eq!(b.base_url, "https://api.polygon.io");
    assert_eq!(b.timeout_ms, 30_000);
    assert_eq!(b.retry_config.max_retries, 3);
    assert!(!b.cache_config.enabled);
    assert_eq!(b.rate_limit_config.requests_per_second, 5);
    let b = b
        .timeout(5_000)
        .max_retries(7)
        .cache(CacheConfig::enabled())
        .rate_limit(RateLimitConfig::disabled())
        .retry(RetryConfig::new().with_base_delay(10).with_max_retries(2));
    assert_eq!(b.timeout_ms, 5_000);
    assert_eq!(b.retry_config.max_retries, 2);
    assert_eq!(b.retry_config.base_delay_ms, 10);
    let c = b.api_key("k").build().unwrap();
    assert_eq!(c.timeout_ms(), 5_000);
    assert!(c.cache().is_enabled());
    assert!(!c.rate_limiter().is_enabled());
}

#[test]
fn builds_urls_from_paths() {
    let client = PolygonClient::with_key("secret").unwrap();
    assert_eq!(
        client.build_url("/v2/aggs/ticker/AAPL/prev").unwrap(),
        "https://api.polygon.io/v2/aggs/ticker/AAPL/prev"
    );
    assert_eq!(
        client.build_url("https://other.example/x?cursor=abc").unwrap(),
        "https://other.example/x?cursor=abc"
    );
    assert_eq!(
        client.request_url("/v3/reference/tickers?limit=10").unwrap(),
        "https://api.polygon.io/v3/reference/tickers?limit=10&apiKey=secret"
    );
    let bad = PolygonClient::builder().api_key("k").base_url("not a url").build().unwrap();
    assert!(matches!(bad.build_url("/x"), Err(PolygonError::InvalidUrl(_))));
    assert!(matches!(client.append_api_key("::"), Err(PolygonError::InvalidUrl(_))));
}

#[test]
fn classifies_replies() {
    assert!(matches!(classify_reply(&response(200, None, "{}")), Ok(b) if b == "{}"));
    match classify_reply(&response(503, None, "oops")) {
        Err(e @ PolygonError::ApiError { .. }) => {
            assert!(e.is_retryable());
            if let PolygonError::ApiError { status, message, request_id } = e {
                assert_eq!(status, 503);
                assert_eq!(message, "HTTP 503");
                assert_eq!(request_id.as_deref(), Some("req-1"));
            }
        }
        other => panic!("unexpected {:?}", other),
    }
    let e = classify_reply(&response(400, None, "bad")).unwrap_err();
    assert!(!e.is_retryable());
    match classify_reply(&response(429, Some("7"), "")) {
        Err(e @ PolygonError::RateLimit { retry_after_secs: 7 }) => assert!(e.is_retryable()),
        other => panic!("unexpected {:?}", other),
    }
    assert!(matches!(
        classify_reply(&response(429, Some("soon"), "")),
        Err(PolygonError::RateLimit { retry_after_secs: 1 })
    ));
    assert!(matches!(
        classify_reply(&response(429, None, "")),
        Err(PolygonError::RateLimit { retry_after_secs: 1 })
    ));
    assert!(matches!(classify_reply(&response(401, None, "")), Err(PolygonError::Unauthorized)));
    assert!(matches!(classify_reply(&response(403, None, "")), Err(PolygonError::Unauthorized)));
    let transport = classify_reply(&HttpReply::TransportFailure("timed out".to_string())).unwrap_err();
    assert!(transport.is_retryable());
}

#[test]
fn error_body_message_is_used() {
    let reply = HttpReply::Response {
        status: 404,
        retry_after: None,
        request_id: None,
        body: String::new(),
        error_body: Some(ErrorResponse {
            status: Some("NOT_FOUND".to_string()),
            request_id: None,
            error: None,
            message: Some("Ticker not found".to_string()),
        }),
    };
    match classify_reply(&reply) {
        Err(PolygonError::ApiError { status: 404, message, .. }) => assert_eq!(message, "Ticker not found"),
        other => panic!("unexpected {:?}", other),
    }
    let empty = ErrorResponse { status: None, request_id: None, error: None, message: None };
    assert_eq!(empty.message(), "Unknown error");
}

fn drive_always_failing(max_retries: u32) -> (u32, PolygonError) {
    let mut client = PolygonClient::builder()
        .api_key("k")
        .max_retries(max_retries)
        .rate_limit(RateLimitConfig::disabled())
        .build()
        .unwrap();
    let url = client.request_url("/v1/x").unwrap();
    let mut state = client.retry_state();
    let mut sent = 0;
    loop {
        if !state.begin_attempt() {
            return (sent, state.exhausted());
        }
        assert_eq!(client.poll_permit(), AcquireStep::Acquired);
        sent += 1;
        match client.on_reply(&mut state, &url, response(503, None, "")) {
            AttemptOutcome::Done(Err(e)) => return (sent, e),
            AttemptOutcome::Done(Ok(_)) => panic!("unexpected success"),
            AttemptOutcome::RetryAfter(_) => {}
        }
    }
}

#[test]
fn retries_exhaust_after_max_attempts() {
    for n in 0..5 {
        let (sent, err) = drive_always_failing(n);
        assert_eq!(sent, n);
        assert!(matches!(err, PolygonError::MaxRetriesExceeded { attempts } if attempts == n));
    }
}

#[test]
fn unauthorized_is_never_retried() {
    let mut client = PolygonClient::builder().api_key("k").max_retries(5).build().unwrap();
    let mut state = client.retry_state();
    assert!(state.begin_attempt());
    let out = client.on_reply(&mut state, "https://api.polygon.io/x", response(401, None, ""));
    assert!(matches!(out, AttemptOutcome::Done(Err(PolygonError::Unauthorized))));
    assert_eq!(state.attempts, 1);
}

#[test]
fn throttle_hint_sets_retry_delay_floor() {
    let mut client = PolygonClient::builder().api_key("k").build().unwrap();
    let mut state = RetryState::new(3);
    assert!(state.begin_attempt());
    match client.on_reply(&mut state, "https://api.polygon.io/x", response(429, Some("9"), "")) {
        AttemptOutcome::RetryAfter(ms) => assert!(ms >= 9000),
        other => panic!("unexpected {:?}", other),
    }
    assert_eq!(state.hint_ms, Some(9000));
}

#[test]
fn success_is_cached_under_resolved_url() {
    let mut client = PolygonClient::builder()
        .api_key("k")
        .cache(CacheConfig::enabled())
        .build()
        .unwrap();
    let url = client.request_url("/v1/marketstatus/now").unwrap();
    assert_eq!(client.cached(&url), None);
    let mut state = client.retry_state();
    assert!(state.begin_attempt());
    match client.on_reply(&mut state, &url, response(200, None, "{\"market\":\"open\"}")) {
        AttemptOutcome::Done(Ok(body)) => assert_eq!(body, "{\"market\":\"open\"}"),
        other => panic!("unexpected {:?}", other),
    }
    assert_eq!(client.cached(&url), Some("{\"market\":\"open\"}".to_string()));
}

#[test]
fn disabled_cache_stores_nothing() {
    let mut client = PolygonClient::with_key("k").unwrap();
    let mut state = client.retry_state();
    assert!(state.begin_attempt());
    let _ = client.on_reply(&mut state, "https://api.polygon.io/y", response(200, None, "body"));
    assert_eq!(client.cached("https://api.polygon.io/y"), None);
}

#[test]
fn cache_hit_skips_attempts() {
    let mut client = PolygonClient::builder()
        .api_key("k")
        .cache(CacheConfig::enabled())
        .max_retries(4)
        .build()
        .unwrap();
    let url = client.request_url("/v2/x").unwrap();
    match client.start_request(&url) {
        RequestStart::Fresh(state) => assert_eq!((state.attempts, state.max_retries), (0, 4)),
        other => panic!("unexpected {:?}", other),
    }
    let mut state = client.retry_state();
    assert!(state.begin_attempt());
    let _ = client.on_reply(&mut state, &url, response(200, None, "[1]"));
    assert!(matches!(client.start_request(&url), RequestStart::Cached(b) if b == "[1]"));
}

#[test]
fn parses_unsigned_decimals_like_std() {
    for text in ["0", "7", "+42", "0012", "18446744073709551615", "18446744073709551616", "", "+", "-1", "1a", " 1", "9999999999999999999999"] {
        assert_eq!(parse_u64(text), text.parse::<u64>().ok(), "input {:?}", text);
    }
}

#[test]
fn formats_decimals() {
    for n in [0u64, 5, 10, 429, 503, 65535, u64::MAX] {
        assert_eq!(decimal_string(n), n.to_string());
    }
}

#[test]
fn huge_retry_after_is_kept_in_seconds() {
    assert!(matches!(
        classify_reply(&response(429, Some("18446744073709551615"), "")),
        Err(PolygonError::RateLimit { retry_after_secs: u64::MAX })
    ));
    let mut client = PolygonClient::builder().api_key("k").build().unwrap();
    let mut state = RetryState::new(3);
    assert!(state.begin_attempt());
    let out = client.on_reply(&mut state, "https://api.polygon.io/x", response(429, Some("18446744073709551615"), ""));
    assert!(matches!(out, AttemptOutcome::RetryAfter(ms) if ms == u64::MAX));
}
