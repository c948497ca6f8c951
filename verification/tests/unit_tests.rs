use graphql_datafusion::agent_config::{AgentConfig, ConfigError};
use graphql_datafusion::auth::{AuthConfig, AuthGuard, AuthMiddleware, Claims};
use graphql_datafusion::models::{FilterOperator, PageInfo, SortOrder};
use graphql_datafusion::engine::DataFusionContext;
use graphql_datafusion::schema_inference::{
    ColumnField, ColumnType, SchemaInference, TableSchema,
};
use graphql_datafusion::security::{
    guard_request, security_headers, SecurityConfig, SecurityMiddleware,
};
use graphql_datafusion::text::{i64_to_string, parse_i64, u64_to_string};
use graphql_datafusion::validation::{
    validate_aggregation_input, validate_filter_input, validate_query_input, AggregationInput,
    FilterInput, QueryInput,
};

#[test]
fn decimal_rendering() {
    assert_eq!(u64_to_string(0), "0");
    assert_eq!(u64_to_string(90210), "90210");
    assert_eq!(u64_to_string(u64::MAX), "18446744073709551615");
    assert_eq!(i64_to_string(-1), "-1");
    assert_eq!(i64_to_string(i64::MIN), "-9223372036854775808");
}

#[test]
fn decimal_parsing() {
    assert_eq!(parse_i64("90210"), Some(90210));
    assert_eq!(parse_i64("-42"), Some(-42));
    assert_eq!(parse_i64("9223372036854775807"), Some(i64::MAX));
    assert_eq!(parse_i64("-9223372036854775808"), Some(i64::MIN));
    assert_eq!(parse_i64("9223372036854775808"), None);
    assert_eq!(parse_i64(""), None);
    assert_eq!(parse_i64("12x"), None);
    assert_eq!(parse_i64("-"), None);
}

#[test]
fn datafusion_context_registers_tables() {
    let ctx = DataFusionContext::new("/opt/data/tpch");
    assert_eq!(ctx.get_data_path(), "/opt/data/tpch");
    let tables = ctx.get_table_names();
    assert_eq!(tables.len(), 8);
    assert_eq!(tables[0], "customer");
    assert_eq!(tables[7], "partsupp");
}

#[test]
fn schema_cache_roundtrip() {
    let mut inference = SchemaInference::new();
    assert!(inference.get_cached_schema("customer").is_none());
    let schema = TableSchema {
        fields: vec![ColumnField { name: "c_custkey".to_string(), data_type: ColumnType::Int64 }],
    };
    inference.cache_schema("customer", schema);
    let cached = inference.get_cached_schema("customer").unwrap();
    assert_eq!(cached.fields.len(), 1);
    assert_eq!(cached.fields[0].name, "c_custkey");
    assert_eq!(cached.fields[0].data_type, ColumnType::Int64);

    // Caching again replaces the earlier schema.
    inference.cache_schema("customer", TableSchema { fields: vec![] });
    assert!(inference.get_cached_schema("customer").unwrap().fields.is_empty());
}

#[test]
fn arrow_types_map_to_rust_types() {
    assert_eq!(SchemaInference::arrow_type_to_rust_type(&ColumnType::Int32), "i32");
    assert_eq!(SchemaInference::arrow_type_to_rust_type(&ColumnType::Int64), "i64");
    assert_eq!(SchemaInference::arrow_type_to_rust_type(&ColumnType::Float64), "f64");
    assert_eq!(SchemaInference::arrow_type_to_rust_type(&ColumnType::Utf8), "String");
    assert_eq!(
        SchemaInference::arrow_type_to_rust_type(&ColumnType::Timestamp),
        "chrono::DateTime<chrono::Utc>"
    );
    assert_eq!(SchemaInference::arrow_type_to_rust_type(&ColumnType::Other), "serde_json::Value");
}

#[test]
fn snake_case_to_camel_case() {
    assert_eq!(SchemaInference::to_camel_case("hello_world"), "HelloWorld");
    assert_eq!(SchemaInference::to_camel_case("c_custkey"), "CCustkey");
    assert_eq!(SchemaInference::to_camel_case("already"), "Already");
    assert_eq!(SchemaInference::to_camel_case(""), "");
}

#[test]
fn query_input_validation() {
    let ok = QueryInput {
        query: "show totals".to_string(),
        agent_type: Some("default".to_string()),
        limit: Some(100),
        offset: Some(0),
    };
    assert!(validate_query_input(ok).is_ok());

    let empty = QueryInput {
        query: "".to_string(),
        agent_type: None,
        limit: None,
        offset: None,
    };
    assert!(validate_query_input(empty).is_err());

    let bad_limit = QueryInput {
        query: "q".to_string(),
        agent_type: None,
        limit: Some(2000),
        offset: None,
    };
    assert!(validate_query_input(bad_limit).is_err());

    let negative_offset = QueryInput {
        query: "q".to_string(),
        agent_type: None,
        limit: None,
        offset: Some(-1),
    };
    assert!(validate_query_input(negative_offset).is_err());

    let injection = QueryInput {
        query: "totals;--".to_string(),
        agent_type: None,
        limit: None,
        offset: None,
    };
    assert!(validate_query_input(injection).is_err());
}

#[test]
fn filter_input_validation() {
    let ok = FilterInput {
        field: "value".to_string(),
        value: "100".to_string(),
        operator: ">=".to_string(),
    };
    assert!(validate_filter_input(ok).is_ok());

    // The whitelist is exact: lower-case `like` is not accepted here.
    let lower = FilterInput {
        field: "f".to_string(),
        value: "v".to_string(),
        operator: "like".to_string(),
    };
    assert!(validate_filter_input(lower).is_err());

    let unknown = FilterInput {
        field: "f".to_string(),
        value: "v".to_string(),
        operator: "~".to_string(),
    };
    assert!(validate_filter_input(unknown).is_err());
}

#[test]
fn aggregation_input_validation() {
    let ok = AggregationInput {
        function: "SUM".to_string(),
        field: "total".to_string(),
        group_by: Some(vec!["region".to_string()]),
    };
    assert!(validate_aggregation_input(ok).is_ok());

    let unknown = AggregationInput {
        function: "median".to_string(),
        field: "total".to_string(),
        group_by: None,
    };
    assert!(validate_aggregation_input(unknown).is_err());

    let empty_group = AggregationInput {
        function: "sum".to_string(),
        field: "total".to_string(),
        group_by: Some(vec![]),
    };
    assert!(validate_aggregation_input(empty_group).is_err());
}

#[test]
fn security_defaults_and_headers() {
    let config = SecurityConfig::default();
    assert!(config.enabled && config.headers && config.cors);
    let middleware = SecurityMiddleware::new(config);
    assert_eq!(middleware.config, config);

    let headers = security_headers();
    assert_eq!(headers.len(), 5);
    assert_eq!(headers[1], ("X-Frame-Options".to_string(), "DENY".to_string()));
    assert_eq!(headers[2].1, "nosniff");
}

#[test]
fn request_guard_checks() {
    // Preflight requests always pass.
    assert!(guard_request("OPTIONS", Some("text/javascript"), Some("http://evil")));
    // A javascript content type is rejected.
    assert!(!guard_request("POST", Some("application/javascript"), None));
    // A referer must be https.
    assert!(!guard_request("POST", None, Some("http://example.org")));
    assert!(guard_request("POST", Some("application/json"), Some("https://example.org")));
    assert!(guard_request("GET", None, None));
}

#[test]
fn claims_expiry_arithmetic() {
    let claims = Claims::with_expiry("alice".to_string(), "admin".to_string(), 1_700_000_000);
    assert_eq!(claims.sub, "alice");
    assert_eq!(claims.role, "admin");
    assert_eq!(claims.exp, 1_700_086_400);
    assert!(!claims.expired_at(1_700_000_000));
    assert!(claims.expired_at(1_700_086_401));

    // A clock before the epoch clamps to an already-expired stamp of zero.
    let early = Claims::with_expiry("bob".to_string(), "user".to_string(), -100_000_000);
    assert_eq!(early.exp, 0);
}

#[test]
fn claims_new_reads_clock() {
    let claims = Claims::new("carol".to_string(), "user".to_string());
    assert_eq!(claims.sub, "carol");
    assert!(claims.exp > 0);
}

#[test]
fn auth_shells_carry_their_configuration() {
    let middleware = AuthMiddleware::new("test-secret".to_string());
    assert_eq!(middleware.secret, "test-secret");
    let guard = AuthGuard::new(AuthConfig {
        secret_key: "test-secret".to_string(),
        token_expiration_secs: 3600,
    });
    assert_eq!(guard.config.token_expiration_secs, 3600);
}

#[test]
fn agent_config_from_values() {
    // Defaults apply where the environment supplies nothing but the key.
    let c = AgentConfig::from_values(None, Some("k".to_string()), None, None).unwrap();
    assert_eq!(c.api_url, "https://api.x.ai/grok");
    assert_eq!(c.api_key, "k");
    assert_eq!(c.retry_attempts, 3);
    assert_eq!(c.retry_delay_ms, 1000);

    // The key is required.
    assert_eq!(
        AgentConfig::from_values(None, None, None, None),
        Err(ConfigError::MissingEnvVar("AGENT_API_KEY".to_string()))
    );

    // Supplied values are parsed.
    let c = AgentConfig::from_values(
        Some("http://backend".to_string()),
        Some("k".to_string()),
        Some("5".to_string()),
        Some("250".to_string()),
    )
    .unwrap();
    assert_eq!(c.api_url, "http://backend");
    assert_eq!(c.retry_attempts, 5);
    assert_eq!(c.retry_delay_ms, 250);

    // Unparsable values are rejected by name, and so is an attempt count
    // below the validated minimum of one.
    assert_eq!(
        AgentConfig::from_values(None, Some("k".to_string()), Some("three".to_string()), None),
        Err(ConfigError::InvalidValue("AGENT_RETRY_ATTEMPTS".to_string()))
    );
    assert_eq!(
        AgentConfig::from_values(None, Some("k".to_string()), Some("0".to_string()), None),
        Err(ConfigError::InvalidValue("AGENT_RETRY_ATTEMPTS".to_string()))
    );
    assert_eq!(
        AgentConfig::from_values(None, Some("k".to_string()), None, Some("-1".to_string())),
        Err(ConfigError::InvalidValue("AGENT_RETRY_DELAY_MS".to_string()))
    );
}

#[test]
fn model_enum_sql_tokens() {
    assert_eq!(FilterOperator::Eq.as_sql(), "=");
    assert_eq!(FilterOperator::Ne.as_sql(), "!=");
    assert_eq!(FilterOperator::Gte.as_sql(), ">=");
    assert_eq!(FilterOperator::Like.as_sql(), "LIKE");
    assert_eq!(FilterOperator::In.as_sql(), "IN");
    assert_eq!(SortOrder::Asc.as_sql(), "ASC");
    assert_eq!(SortOrder::Desc.as_sql(), "DESC");

    let page = PageInfo { current_page: 1, page_size: 50, total_pages: 4 };
    assert_eq!(page, PageInfo { current_page: 1, page_size: 50, total_pages: 4 });
}
