//! The server configuration: every tunable of the pipeline and its
//! transport surface, with defaults, range validation, and URL checks.
//! Reading values from the environment is left to the surrounding program;
//! validation is decided here.

use vstd::prelude::*;
use vstd::string::*;
use crate::rate_limit::RateLimitConfig;
use crate::security::SecurityConfig;
use crate::text::str_eq;

verus! {

/// How much the logs say.
#[derive(Clone, Copy, Debug, PartialEq, Eq, Structural)]
pub enum LogLevel {
    Trace,
    Debug,
    Info,
    Warn,
    Error,
}

/// The whole configuration surface.
#[derive(Clone, Debug)]
pub struct Config {
    /// HTTP server port.
    pub http_port: u16,
    /// WebSocket server port.
    pub ws_port: u16,
    /// Interface the server binds to.
    pub host: String,
    /// Secret that tokens are signed with.
    pub jwt_secret: String,
    /// Token lifetime in seconds.
    pub jwt_expiration: u64,
    /// Where the result store lives.
    pub database_url: String,
    /// Where the cache lives.
    pub cache_url: String,
    /// Log verbosity.
    pub log_level: LogLevel,
    /// Trace verbosity.
    pub tracing_level: LogLevel,
    /// Largest accepted request body, in bytes.
    pub max_request_size: u64,
    /// Per-request timeout in seconds.
    pub request_timeout: u64,
    /// Concurrent requests admitted at once.
    pub max_concurrent_requests: u32,
    /// Concurrent WebSocket connections admitted at once.
    pub max_ws_connections: u32,
    /// Whether translation results are cached.
    pub enable_caching: bool,
    /// Cache entry lifetime in seconds.
    pub cache_expiration: u64,
    /// Cache size bound in bytes.
    pub max_cache_size: u64,
    /// Whether caller inputs are validated.
    pub enable_validation: bool,
    /// Deepest accepted query nesting.
    pub max_query_depth: u32,
    /// Highest accepted query complexity score.
    pub max_query_complexity: u32,
    /// Whether requests may be batched.
    pub enable_batching: bool,
    /// Largest accepted batch.
    pub max_batch_size: u32,
    /// Whether tracing is on.
    pub enable_tracing: bool,
    /// Whether requests are logged.
    pub enable_request_logging: bool,
    /// Whether metrics are collected.
    pub enable_metrics: bool,
    /// Seconds between metric reports.
    pub metrics_interval: u64,
    /// Whether the engine optimizes statements.
    pub enable_optimization: bool,
    /// Engine optimization level, 0 through 3.
    pub optimization_level: u8,
    /// Admission control settings.
    pub rate_limit: RateLimitConfig,
    /// Security settings.
    pub security: SecurityConfig,
    /// TLS certificate path, if TLS is on.
    pub tls_cert: Option<String>,
    /// TLS key path, if TLS is on.
    pub tls_key: Option<String>,
    /// Where the sample dataset lives.
    pub data_path: String,
    /// The default table of the sample dataset.
    pub table_name: String,
    /// Base URL of the text-generation backend.
    pub ollama_url: String,
    /// Model identifier sent to the backend.
    pub ollama_model: String,
    /// Per-query timeout in seconds.
    pub query_timeout: u64,
}

/// What a configuration must satisfy: every count and interval at least 1,
/// the optimization level at most 3, non-empty names and URLs, and the
/// admission-control ranges.
pub open spec fn config_valid(c: Config) -> bool {
    &&& c.http_port >= 1
    &&& c.ws_port >= 1
    &&& c.jwt_expiration >= 1
    &&& c.max_request_size >= 1
    &&& c.request_timeout >= 1
    &&& c.max_concurrent_requests >= 1
    &&& c.max_ws_connections >= 1
    &&& c.cache_expiration >= 1
    &&& c.max_cache_size >= 1
    &&& c.max_query_depth >= 1
    &&& c.max_query_complexity >= 1
    &&& c.max_batch_size >= 1
    &&& c.optimization_level <= 3
    &&& c.metrics_interval >= 1
    &&& c.query_timeout >= 1
    &&& c.host@.len() >= 1
    &&& c.data_path@.len() >= 1
    &&& c.table_name@.len() >= 1
    &&& c.ollama_url@.len() >= 1
    &&& c.ollama_model@.len() >= 1
    &&& c.rate_limit.window_ms >= 1
    &&& c.rate_limit.limit >= 1
    &&& c.rate_limit.burst >= 1
}

impl Default for Config {
    /// The built-in defaults; they satisfy [`config_valid`].
    fn default() -> (r: Self)
        ensures
            r.http_port == 8000,
            r.ws_port == 8001,
            r.host@ == "0.0.0.0"@,
            r.jwt_secret@ == Seq::<char>::empty(),
            r.jwt_expiration == 3600,
            r.database_url@ == "postgresql://localhost:5432/analytics"@,
            r.cache_url@ == "redis://localhost:6379"@,
            r.log_level == LogLevel::Info,
            r.tracing_level == LogLevel::Info,
            r.max_request_size == 10485760,
            r.request_timeout == 30,
            r.max_concurrent_requests == 100,
            r.max_ws_connections == 50,
            r.enable_caching == true,
            r.cache_expiration == 3600,
            r.max_cache_size == 1073741824,
            r.enable_validation == true,
            r.max_query_depth == 10,
            r.max_query_complexity == 100,
            r.enable_batching == true,
            r.max_batch_size == 10,
            r.enable_tracing == true,
            r.enable_request_logging == true,
            r.enable_metrics == true,
            r.metrics_interval == 60,
            r.enable_optimization == true,
            r.optimization_level == 2,
            r.rate_limit == (RateLimitConfig {
                window_ms: 60000,
                limit: 100,
                burst: 5,
                ip_tracking: true,
                headers: true,
            }),
            r.security == (SecurityConfig {
                enabled: true,
                headers: true,
                cors: true,
                xss_protection: true,
                hsts: true,
                content_security_policy: true,
            }),
            r.tls_cert is None,
            r.tls_key is None,
            r.data_path@ == "/opt/data/tpch"@,
            r.table_name@ == "customer"@,
            r.ollama_url@ == "http://localhost:11434"@,
            r.ollama_model@ == "llama2"@,
            r.query_timeout == 30,
            config_valid(r),
    {
        let r = Config {
            http_port: 8000,
            ws_port: 8001,
            host: String::from_str("0.0.0.0"),
            jwt_secret: String::new(),
            jwt_expiration: 3600,
            database_url: String::from_str("postgresql://localhost:5432/analytics"),
            cache_url: String::from_str("redis://localhost:6379"),
            log_level: LogLevel::Info,
            tracing_level: LogLevel::Info,
            max_request_size: 10485760,
            request_timeout: 30,
            max_concurrent_requests: 100,
            max_ws_connections: 50,
            enable_caching: true,
            cache_expiration: 3600,
            max_cache_size: 1073741824,
            enable_validation: true,
            max_query_depth: 10,
            max_query_complexity: 100,
            enable_batching: true,
            max_batch_size: 10,
            enable_tracing: true,
            enable_request_logging: true,
            enable_metrics: true,
            metrics_interval: 60,
            enable_optimization: true,
            optimization_level: 2,
            rate_limit: RateLimitConfig {
                window_ms: 60000,
                limit: 100,
                burst: 5,
                ip_tracking: true,
                headers: true,
            },
            security: SecurityConfig {
                enabled: true,
                headers: true,
                cors: true,
                xss_protection: true,
                hsts: true,
                content_security_policy: true,
            },
            tls_cert: None,
            tls_key: None,
            data_path: String::from_str("/opt/data/tpch"),
            table_name: String::from_str("customer"),
            ollama_url: String::from_str("http://localhost:11434"),
            ollama_model: String::from_str("llama2"),
            query_timeout: 30,
        };
        proof {
            reveal_strlit("0.0.0.0");
            reveal_strlit("/opt/data/tpch");
            reveal_strlit("customer");
            reveal_strlit("http://localhost:11434");
            reveal_strlit("llama2");
        }
        r
    }
}

/// The scheme that `url::Url::parse` reports for this text, or nothing when
/// the text does not parse as an absolute URL.
pub uninterp spec fn url_scheme_of(s: Seq<char>) -> Option<Seq<char>>;

/// Relies on `url::Url::parse` and `url::Url::scheme`: parsing depends on
/// the input text alone, and the scheme of a parsed URL is the part before
/// its first colon, lower-cased by the parser.
#[verifier::external_body]
fn parse_url_scheme(s: &str) -> (r: Option<String>)
    ensures
        match r {
            Some(scheme) => url_scheme_of(s@) == Some(scheme@),
            None => url_scheme_of(s@) is None,
        },
{
    match url::Url::parse(s) {
        Ok(u) => Some(u.scheme().to_string()),
        Err(_) => None,
    }
}

impl Config {
    /// Accepts the configuration exactly when [`config_valid`] holds;
    /// rejects it with a message otherwise.
    pub fn validate(&self) -> (r: Result<(), String>)
        ensures
            r is Ok <==> config_valid(*self),
    {
        if self.http_port < 1 {
            return Err(String::from_str("Invalid HTTP port number"));
        }
        if self.ws_port < 1 {
            return Err(String::from_str("Invalid WebSocket port number"));
        }
        if self.jwt_expiration < 1 {
            return Err(String::from_str("Token expiration must be greater than 0"));
        }
        if self.max_request_size < 1 {
            return Err(String::from_str("Request size limit must be greater than 0"));
        }
        if self.request_timeout < 1 {
            return Err(String::from_str("Request timeout must be greater than 0"));
        }
        if self.max_concurrent_requests < 1 {
            return Err(String::from_str("Concurrent request limit must be greater than 0"));
        }
        if self.max_ws_connections < 1 {
            return Err(String::from_str("WebSocket connection limit must be greater than 0"));
        }
        if self.cache_expiration < 1 {
            return Err(String::from_str("Cache expiration must be greater than 0"));
        }
        if self.max_cache_size < 1 {
            return Err(String::from_str("Cache size limit must be greater than 0"));
        }
        if self.max_query_depth < 1 {
            return Err(String::from_str("Query depth limit must be greater than 0"));
        }
        if self.max_query_complexity < 1 {
            return Err(String::from_str("Query complexity limit must be greater than 0"));
        }
        if self.max_batch_size < 1 {
            return Err(String::from_str("Batch size limit must be greater than 0"));
        }
        if self.optimization_level > 3 {
            return Err(String::from_str("Optimization level must be between 0 and 3"));
        }
        if self.metrics_interval < 1 {
            return Err(String::from_str("Metrics interval must be greater than 0"));
        }
        if self.query_timeout < 1 {
            return Err(String::from_str("Query timeout must be greater than 0"));
        }
        if self.host.as_str().unicode_len() < 1 {
            return Err(String::from_str("Host cannot be empty"));
        }
        if self.data_path.as_str().unicode_len() < 1 {
            return Err(String::from_str("Data path cannot be empty"));
        }
        if self.table_name.as_str().unicode_len() < 1 {
            return Err(String::from_str("Table name cannot be empty"));
        }
        if self.ollama_url.as_str().unicode_len() < 1 {
            return Err(String::from_str("Ollama URL cannot be empty"));
        }
        if self.ollama_model.as_str().unicode_len() < 1 {
            return Err(String::from_str("Ollama model cannot be empty"));
        }
        if self.rate_limit.window_ms < 1 {
            return Err(String::from_str("Rate limit window must be greater than 0"));
        }
        if self.rate_limit.limit < 1 {
            return Err(String::from_str("Rate limit must be greater than 0"));
        }
        if self.rate_limit.burst < 1 {
            return Err(String::from_str("Burst allowance must be greater than 0"));
        }
        Ok(())
    }

    /// Accepts the result-store URL exactly when it parses and its scheme
    /// is `postgresql`.
    pub fn verify_database_url(&self) -> (r: Result<(), String>)
        ensures
            r is Ok <==> url_scheme_of(self.database_url@) == Some("postgresql"@),
    {
        match parse_url_scheme(self.database_url.as_str()) {
            Some(scheme) => {
                if str_eq(scheme.as_str(), "postgresql") {
                    Ok(())
                } else {
                    Err(String::from_str("Database URL must use the postgresql scheme"))
                }
            },
            None => Err(String::from_str("Invalid database URL")),
        }
    }

    /// Accepts the cache URL exactly when it parses and its scheme is
    /// `redis`.
    pub fn verify_cache_url(&self) -> (r: Result<(), String>)
        ensures
            r is Ok <==> url_scheme_of(self.cache_url@) == Some("redis"@),
    {
        match parse_url_scheme(self.cache_url.as_str()) {
            Some(scheme) => {
                if str_eq(scheme.as_str(), "redis") {
                    Ok(())
                } else {
                    Err(String::from_str("Cache URL must use the redis scheme"))
                }
            },
            None => Err(String::from_str("Invalid cache URL")),
        }
    }

    /// Accepts the TLS settings exactly when the certificate and the key
    /// are both given or both absent.
    pub fn verify_tls_config(&self) -> (r: Result<(), String>)
        ensures
            r is Ok <==> (self.tls_cert is Some <==> self.tls_key is Some),
    {
        match (&self.tls_cert, &self.tls_key) {
            (Some(_), Some(_)) => Ok(()),
            (None, None) => Ok(()),
            (Some(_), None) => Err(String::from_str("TLS certificate given without a key")),
            (None, Some(_)) => Err(String::from_str("TLS key given without a certificate")),
        }
    }
}

} // verus!
