//! The agent subsystem's own configuration: the backend endpoint and the
//! retry policy, built from raw environment values. Reading the environment
//! is left to the surrounding program; every decision about the values is
//! made here.

use vstd::prelude::*;
use vstd::string::*;
use crate::text::{parse_u64, parse_u64_spec};

verus! {

/// Why the configuration could not be built.
#[derive(Clone, Debug, PartialEq, Eq)]
pub enum ConfigError {
    /// A required environment variable is absent; carries its name.
    MissingEnvVar(String),
    /// A variable's value does not parse; carries the variable's name.
    InvalidValue(String),
}

/// The agent subsystem's configuration.
#[derive(Clone, Debug, PartialEq, Eq)]
pub struct AgentConfig {
    /// Endpoint of the text-generation service.
    pub api_url: String,
    /// Credential sent with each request.
    pub api_key: String,
    /// Attempts per request.
    pub retry_attempts: u32,
    /// Sleep between attempts, in milliseconds.
    pub retry_delay_ms: u64,
}

/// Whether raw text denotes a valid attempt count: an in-range `u32` of at
/// least 1, since at least one attempt must be made.
pub open spec fn valid_retry_attempts(s: Seq<char>) -> bool {
    parse_u64_spec(s) matches Some(v) && 1 <= v <= u32::MAX
}

impl AgentConfig {
    /// The configuration decided from the raw environment values: the URL
    /// and the retry settings have defaults, the key is required, and a
    /// retry setting that does not parse — or an attempt count below 1 —
    /// is rejected by name.
    pub fn from_values(
        api_url: Option<String>,
        api_key: Option<String>,
        retry_attempts: Option<String>,
        retry_delay_ms: Option<String>,
    ) -> (r: Result<AgentConfig, ConfigError>)
        ensures
            match r {
                Ok(c) => {
                    &&& api_key matches Some(k) && c.api_key == k
                    &&& match api_url {
                        Some(u) => c.api_url == u,
                        None => c.api_url@ == "https://api.x.ai/grok"@,
                    }
                    &&& c.retry_attempts >= 1
                    &&& match retry_attempts {
                        Some(s) => parse_u64_spec(s@) == Some(c.retry_attempts as int),
                        None => c.retry_attempts == 3,
                    }
                    &&& match retry_delay_ms {
                        Some(s) => parse_u64_spec(s@) == Some(c.retry_delay_ms as int),
                        None => c.retry_delay_ms == 1000,
                    }
                },
                Err(ConfigError::MissingEnvVar(name)) => api_key is None && name@
                    == "AGENT_API_KEY"@,
                Err(ConfigError::InvalidValue(name)) => api_key is Some && (name@
                    == "AGENT_RETRY_ATTEMPTS"@ && (retry_attempts matches Some(s)
                    && !valid_retry_attempts(s@)) || name@ == "AGENT_RETRY_DELAY_MS"@ && (
                retry_delay_ms matches Some(s) && parse_u64_spec(s@) is None)),
            },
            r is Err <==> (api_key is None || (retry_attempts matches Some(s)
                && !valid_retry_attempts(s@)) || (retry_delay_ms matches Some(s)
                && parse_u64_spec(s@) is None)),
    {
        let api_url = match api_url {
            Some(u) => u,
            None => String::from_str("https://api.x.ai/grok"),
        };
        let api_key = match api_key {
            Some(k) => k,
            None => {
                return Err(ConfigError::MissingEnvVar(String::from_str("AGENT_API_KEY")));
            },
        };
        let retry_attempts: u32 = match retry_attempts {
            Some(s) => {
                match parse_u64(s.as_str()) {
                    Some(v) => {
                        if 1 <= v && v <= 0xffff_ffffu64 {
                            v as u32
                        } else {
                            return Err(
                                ConfigError::InvalidValue(
                                    String::from_str("AGENT_RETRY_ATTEMPTS"),
                                ),
                            );
                        }
                    },
                    None => {
                        return Err(
                            ConfigError::InvalidValue(String::from_str("AGENT_RETRY_ATTEMPTS")),
                        );
                    },
                }
            },
            None => 3,
        };
        let retry_delay_ms: u64 = match retry_delay_ms {
            Some(s) => {
                match parse_u64(s.as_str()) {
                    Some(v) => v,
                    None => {
                        return Err(
                            ConfigError::InvalidValue(String::from_str("AGENT_RETRY_DELAY_MS")),
                        );
                    },
                }
            },
            None => 1000,
        };
        Ok(AgentConfig { api_url, api_key, retry_attempts, retry_delay_ms })
    }
}

} // verus!
