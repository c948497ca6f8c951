use graphql_datafusion::config::{Config, LogLevel};

#[test]
fn test_default_config() {
    let config = Config::default();

    assert_eq!(config.http_port, 8000);
    assert_eq!(config.ws_port, 8001);
    assert_eq!(config.host, "0.0.0.0");
    assert_eq!(config.jwt_expiration, 3600);
    assert_eq!(config.log_level, LogLevel::Info);
    assert_eq!(config.tracing_level, LogLevel::Info);
    assert_eq!(config.max_request_size, 10485760);
    assert_eq!(config.request_timeout, 30);
    assert_eq!(config.max_concurrent_requests, 100);
    assert_eq!(config.max_ws_connections, 50);
    assert_eq!(config.enable_caching, true);
    assert_eq!(config.cache_expiration, 3600);
    assert_eq!(config.max_cache_size, 1073741824);
    assert_eq!(config.enable_validation, true);
    assert_eq!(config.max_query_depth, 10);
    assert_eq!(config.max_query_complexity, 100);
    assert_eq!(config.enable_batching, true);
    assert_eq!(config.max_batch_size, 10);
    assert_eq!(config.enable_tracing, true);
    assert_eq!(config.enable_request_logging, true);
    assert_eq!(config.enable_metrics, true);
    assert_eq!(config.metrics_interval, 60);
    assert_eq!(config.enable_optimization, true);
    assert_eq!(config.optimization_level, 2);

    // Rate limit config: a one-minute window expressed in milliseconds
    assert_eq!(config.rate_limit.window_ms, 60000);
    assert_eq!(config.rate_limit.limit, 100);
    assert_eq!(config.rate_limit.burst, 5);
    assert_eq!(config.rate_limit.ip_tracking, true);
    assert_eq!(config.rate_limit.headers, true);

    // Security config
    assert_eq!(config.security.enabled, true);
    assert_eq!(config.security.headers, true);
    assert_eq!(config.security.cors, true);
    assert_eq!(config.security.xss_protection, true);
    assert_eq!(config.security.hsts, true);
    assert_eq!(config.security.content_security_policy, true);
}

#[test]
fn test_config_validation() {
    // Valid config
    let config = Config {
        http_port: 8000,
        ws_port: 8001,
        host: "localhost".to_string(),
        jwt_expiration: 3600,
        ..Default::default()
    };
    assert!(config.validate().is_ok());

    // Invalid HTTP port
    let config = Config { http_port: 0, ..Default::default() };
    assert!(config.validate().is_err());

    // Invalid WebSocket port
    let config = Config { ws_port: 0, ..Default::default() };
    assert!(config.validate().is_err());

    // Invalid JWT expiration
    let config = Config { jwt_expiration: 0, ..Default::default() };
    assert!(config.validate().is_err());

    // Invalid request size
    let config = Config { max_request_size: 0, ..Default::default() };
    assert!(config.validate().is_err());

    // Invalid request timeout
    let config = Config { request_timeout: 0, ..Default::default() };
    assert!(config.validate().is_err());

    // Invalid concurrent requests
    let config = Config { max_concurrent_requests: 0, ..Default::default() };
    assert!(config.validate().is_err());

    // Invalid WebSocket connections
    let config = Config { max_ws_connections: 0, ..Default::default() };
    assert!(config.validate().is_err());

    // Invalid cache expiration
    let config = Config { cache_expiration: 0, ..Default::default() };
    assert!(config.validate().is_err());

    // Invalid cache size
    let config = Config { max_cache_size: 0, ..Default::default() };
    assert!(config.validate().is_err());

    // Invalid query depth
    let config = Config { max_query_depth: 0, ..Default::default() };
    assert!(config.validate().is_err());

    // Invalid query complexity
    let config = Config { max_query_complexity: 0, ..Default::default() };
    assert!(config.validate().is_err());

    // Invalid batch size
    let config = Config { max_batch_size: 0, ..Default::default() };
    assert!(config.validate().is_err());

    // Invalid optimization level
    let config = Config { optimization_level: 4, ..Default::default() };
    assert!(config.validate().is_err());
}

#[test]
fn test_url_validation() {
    // Valid database URL
    let config = Config {
        database_url: "postgresql://localhost:5432/test".to_string(),
        ..Default::default()
    };
    assert!(config.verify_database_url().is_ok());

    // Invalid database URL
    let config = Config { database_url: "invalid://url".to_string(), ..Default::default() };
    assert!(config.verify_database_url().is_err());

    // Valid cache URL
    let config = Config { cache_url: "redis://localhost:6379".to_string(), ..Default::default() };
    assert!(config.verify_cache_url().is_ok());

    // Invalid cache URL
    let config = Config { cache_url: "invalid://url".to_string(), ..Default::default() };
    assert!(config.verify_cache_url().is_err());
}

#[test]
fn test_tls_config_validation() {
    // No TLS config
    let config = Config { tls_cert: None, tls_key: None, ..Default::default() };
    assert!(config.verify_tls_config().is_ok());

    // Both TLS config
    let config = Config {
        tls_cert: Some("cert.pem".to_string()),
        tls_key: Some("key.pem".to_string()),
        ..Default::default()
    };
    assert!(config.verify_tls_config().is_ok());

    // Missing cert
    let config = Config {
        tls_cert: None,
        tls_key: Some("key.pem".to_string()),
        ..Default::default()
    };
    assert!(config.verify_tls_config().is_err());

    // Missing key
    let config = Config {
        tls_cert: Some("cert.pem".to_string()),
        tls_key: None,
        ..Default::default()
    };
    assert!(config.verify_tls_config().is_err());
}

#[test]
fn test_database_url_not_postgres_scheme() {
    let config = Config { database_url: "redis://localhost:6379".to_string(), ..Default::default() };
    assert!(config.verify_database_url().is_err());
}

#[test]
fn test_database_url_unparsable() {
    let config = Config { database_url: "not a url at all".to_string(), ..Default::default() };
    assert!(config.verify_database_url().is_err());
}
