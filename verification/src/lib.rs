//! A verified query pipeline: structured-parameter SQL translation, an
//! admission-control rate limiter, an agent client for a remote
//! text-generation backend, and an orchestrator that composes them with
//! bounded retry and subscriber fan-out.

pub mod agent_client;
pub mod agent_config;
pub mod agent_types;
pub mod auth;
pub mod clock;
pub mod config;
pub mod engine;
pub mod error;
pub mod helpers;
pub mod models;
pub mod orchestrator;
pub mod query_translator;
pub mod rate_limit;
pub mod schema_inference;
pub mod security;
pub mod text;
pub mod validation;
