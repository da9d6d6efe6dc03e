use monitoreo::rate_limit::{
    client_ip, RateLimitError, RateLimitMiddleware, RateLimitType, RateLimiterState, AUTH_LIMIT,
    GLOBAL_LIMIT, NANOS_PER_SEC, WINDOW_NANOS, WINDOW_SIZE_SECS,
};

#[test]
fn accepts_up_to_the_limit_then_refuses() {
    let mut s = RateLimiterState::new(0);
    for i in 0..3u64 {
        let r = s.check_rate_limit("k", 3, i * NANOS_PER_SEC).unwrap();
        assert!(r.allowed);
        assert_eq!(r.limit, 3);
        assert_eq!(r.remaining, (2 - i) as usize);
        assert_eq!(r.reset_in, WINDOW_SIZE_SECS);
    }
    let e = s.check_rate_limit("k", 3, 10 * NANOS_PER_SEC).unwrap_err();
    assert_eq!(e, RateLimitError::LimitExceeded { limit: 3, remaining: 0, retry_after: 50 });
    assert_eq!(e.retry_after(), 50);
}

#[test]
fn requests_leave_the_window() {
    let mut s = RateLimiterState::new(0);
    assert!(s.check_rate_limit("k", 1, 0).is_ok());
    assert!(s.check_rate_limit("k", 1, WINDOW_NANOS).is_ok());
    assert!(s.check_rate_limit("k", 1, WINDOW_NANOS + 1).is_err());
}

#[test]
fn keys_are_counted_apart() {
    let mut s = RateLimiterState::new(0);
    assert!(s.check_rate_limit("a", 1, 5).is_ok());
    assert!(s.check_rate_limit("b", 1, 5).is_ok());
    assert!(s.check_rate_limit("a", 1, 6).is_err());
}

#[test]
fn zero_limit_refuses_with_no_wait() {
    let mut s = RateLimiterState::new(0);
    let e = s.check_rate_limit("k", 0, 100).unwrap_err();
    assert_eq!(e.retry_after(), 0);
}

#[test]
fn cleanup_then_check_decides_the_same() {
    let mut a = RateLimiterState::new(0);
    let mut b = RateLimiterState::new(0);
    assert!(a.check_rate_limit("k", 1, 1).is_ok());
    assert!(b.check_rate_limit("k", 1, 1).is_ok());
    a.cleanup(30 * NANOS_PER_SEC);
    assert_eq!(
        a.check_rate_limit("k", 1, 30 * NANOS_PER_SEC).is_ok(),
        b.check_rate_limit("k", 1, 30 * NANOS_PER_SEC).is_ok()
    );
}

#[test]
fn global_and_auth_limits() {
    assert_eq!(GLOBAL_LIMIT, 100);
    assert_eq!(AUTH_LIMIT, 10);
    assert_eq!(RateLimitType::Global.limit(), 100);
    assert_eq!(RateLimitType::Auth.limit(), 10);
    assert_eq!(RateLimitType::Global.key_for("1.2.3.4"), "global:1.2.3.4");
    assert_eq!(RateLimitType::Auth.key_for("1.2.3.4"), "auth:1.2.3.4");
    let mut s = RateLimiterState::new(0);
    for _ in 0..10 {
        assert!(s.check_auth("ip", 1).is_ok());
    }
    assert!(s.check_auth("ip", 2).is_err());
    assert!(s.check_global("ip", 2).is_ok());
}

#[test]
fn client_ip_from_forwarded_header() {
    assert_eq!(client_ip(Some(" 10.0.0.1 , 10.0.0.2")), "10.0.0.1");
    assert_eq!(client_ip(None), "unknown");
}

#[test]
fn middleware_counts_per_client() {
    let mut m = RateLimitMiddleware::new(RateLimitType::Auth, 0);
    for _ in 0..10 {
        assert!(m.check(Some("9.9.9.9"), 5).is_ok());
    }
    let e = m.check(Some("9.9.9.9, 1.1.1.1"), 6).unwrap_err();
    assert_eq!(e.retry_after(), 60);
    assert!(m.check(None, 6).is_ok());
}

#[test]
fn accepted_response_headers() {
    let mut s = RateLimiterState::new(0);
    let r = s.check_global("ip", 0).unwrap();
    let h = r.headers();
    assert_eq!(h[0], ("x-ratelimit-limit".to_string(), "100".to_string()));
    assert_eq!(h[1], ("x-ratelimit-remaining".to_string(), "99".to_string()));
}

#[test]
fn refused_request_is_answered_429() {
    let e = RateLimitError::LimitExceeded { limit: 10, remaining: 0, retry_after: 42 };
    let r = e.rejection();
    assert_eq!(r.status, 429);
    assert_eq!(r.error, "Rate limit exceeded");
    assert_eq!(r.retry_after, 42);
    assert_eq!(r.headers[0], ("x-ratelimit-remaining".to_string(), "0".to_string()));
    assert_eq!(r.headers[1], ("retry-after".to_string(), "42".to_string()));
}

#[test]
fn refused_requests_count_for_nothing() {
    let mut s = RateLimiterState::new(0);
    assert_eq!(s.check_rate_limit("k", 2, 0).unwrap().remaining, 1);
    assert_eq!(s.check_rate_limit("k", 2, NANOS_PER_SEC).unwrap().remaining, 0);
    let e = s.check_rate_limit("k", 2, 2 * NANOS_PER_SEC).unwrap_err();
    assert_eq!(e, RateLimitError::LimitExceeded { limit: 2, remaining: 0, retry_after: 58 });
    let e = s.check_rate_limit("k", 2, 3 * NANOS_PER_SEC).unwrap_err();
    assert_eq!(e.retry_after(), 57);
    assert!(s.check_rate_limit("other", 2, 3 * NANOS_PER_SEC).is_ok());
    // Only the request at one second still counts once the window has moved on.
    assert_eq!(s.check_rate_limit("k", 2, WINDOW_NANOS).unwrap().remaining, 0);
    assert_eq!(s.check_rate_limit("k", 2, WINDOW_NANOS + NANOS_PER_SEC).unwrap().remaining, 0);
}
