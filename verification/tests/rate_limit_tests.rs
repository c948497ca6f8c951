use graphql_datafusion::rate_limit::{RateLimitConfig, RateLimitError, RateLimitMiddleware, RateLimiter};

#[test]
fn burst_allowance_admits_then_rejects() {
    // A fresh key admits `burst` requests inside one second; the next one
    // within that same second is rejected with BurstExceeded.
    let mut limiter = RateLimiter::new();
    let t0: u64 = 1_000_000;
    for i in 0..5u64 {
        assert!(limiter.check_at("query", "10.0.0.1", t0 + i).is_ok());
    }
    assert_eq!(
        limiter.check_at("query", "10.0.0.1", t0 + 5),
        Err(RateLimitError::BurstExceeded)
    );
}

#[test]
fn burst_subwindow_resets_after_one_second() {
    let mut limiter = RateLimiter::new();
    let t0: u64 = 1_000_000;
    for i in 0..5u64 {
        assert!(limiter.check_at("query", "10.0.0.2", t0 + i).is_ok());
    }
    // More than one second after the sub-window's first request: admitted.
    assert!(limiter.check_at("query", "10.0.0.2", t0 + 1001).is_ok());
}

#[test]
fn window_allowance_admits_then_rejects_then_resumes() {
    // 100 requests inside the window, in groups of five so the burst
    // counter admits each group; the 101st before the window elapses is
    // rejected with WindowExceeded; after the window elapses, admission
    // resumes.
    let mut limiter = RateLimiter::new();
    let t0: u64 = 2_000_000;
    let mut sent = 0u64;
    let mut group = 0u64;
    while sent < 100 {
        let base = t0 + group * 1001;
        for i in 0..5u64 {
            assert!(limiter.check_at("query", "10.0.0.3", base + i).is_ok());
            sent += 1;
        }
        group += 1;
    }
    let after = t0 + group * 1001;
    assert!(after <= t0 + 60_000);
    assert_eq!(
        limiter.check_at("query", "10.0.0.3", after),
        Err(RateLimitError::WindowExceeded)
    );
    // The window is anchored at the key's first request.
    assert!(limiter.check_at("query", "10.0.0.3", t0 + 60_001).is_ok());
}

#[test]
fn subscription_endpoint_has_tighter_burst() {
    let mut limiter = RateLimiter::new();
    let t0: u64 = 3_000_000;
    for i in 0..3u64 {
        assert!(limiter.check_at("subscription", "10.0.0.4", t0 + i).is_ok());
    }
    assert_eq!(
        limiter.check_at("subscription", "10.0.0.4", t0 + 3),
        Err(RateLimitError::BurstExceeded)
    );
}

#[test]
fn unknown_endpoint_uses_default_limits() {
    // An endpoint without limits of its own falls back to the query limits.
    let mut limiter = RateLimiter::new();
    let t0: u64 = 4_000_000;
    for i in 0..5u64 {
        assert!(limiter.check_at("somewhere-else", "10.0.0.5", t0 + i).is_ok());
    }
    assert_eq!(
        limiter.check_at("somewhere-else", "10.0.0.5", t0 + 5),
        Err(RateLimitError::BurstExceeded)
    );
}

#[test]
fn keys_are_tracked_independently() {
    let mut limiter = RateLimiter::new();
    let t0: u64 = 5_000_000;
    for i in 0..5u64 {
        assert!(limiter.check_at("query", "10.0.0.6", t0 + i).is_ok());
    }
    // A different client is a different key and has its own counters.
    assert!(limiter.check_at("query", "10.0.0.7", t0 + 5).is_ok());
    // A different endpoint for the same client is also a different key.
    assert!(limiter.check_at("subscription", "10.0.0.6", t0 + 5).is_ok());
}

#[test]
fn check_limit_uses_the_clock() {
    let mut limiter = RateLimiter::new();
    assert!(limiter.check_limit("query", "10.0.0.8").is_ok());
}

#[test]
fn rate_limit_config_default() {
    let config = RateLimitConfig::default();
    assert_eq!(config.window_ms, 60000);
    assert_eq!(config.limit, 100);
    assert_eq!(config.burst, 5);
    assert!(config.ip_tracking);
    assert!(config.headers);
    let middleware = RateLimitMiddleware::new(config);
    assert_eq!(middleware.config, config);
}
