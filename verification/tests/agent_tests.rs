use graphql_datafusion::agent_client::{
    AgentClient, AgentError, InsightQuery, OllamaOptions, TranslateQuery,
};
use graphql_datafusion::models::Record;

fn record(id: u64, name: &str, value: i64) -> Record {
    Record { id, name: name.to_string(), value }
}

const TRANSLATE_PROMPT_PREFIX: &str = "You are a SQL expert. Convert the following natural \
language query to SQL. Only return the SQL query, nothing else. Available table: \
sample(id, name, value) Query: ";

#[test]
fn client_creation() {
    let client = AgentClient::new("http://localhost:11434".to_string(), "llama2".to_string());
    assert_eq!(client.ollama_url, "http://localhost:11434");
    assert_eq!(client.model, "llama2");
    assert_eq!(client.options, OllamaOptions::default());
    assert!(client.cache.is_empty());
}

#[test]
fn client_with_options() {
    let options = OllamaOptions { temperature_milli: Some(700), num_predict: Some(256) };
    let client = AgentClient::with_options(
        "http://localhost:11434".to_string(),
        "llama2".to_string(),
        options,
    );
    assert_eq!(client.options.temperature_milli, Some(700));
    assert_eq!(client.options.num_predict, Some(256));
}

#[test]
fn translate_miss_asks_backend_with_prompt() {
    let client = AgentClient::new("u".to_string(), "m".to_string());
    match client.begin_translate_to_sql("top customers") {
        TranslateQuery::Ask(prompt) => {
            assert_eq!(prompt, format!("{}top customers", TRANSLATE_PROMPT_PREFIX));
        }
        TranslateQuery::Cached(_) => panic!("fresh client must not have a cached translation"),
    }
}

#[test]
fn translate_reply_is_trimmed_validated_and_cached() {
    let mut client = AgentClient::new("u".to_string(), "m".to_string());
    let sql = client
        .finish_translate_to_sql("top customers", "  SELECT * FROM sample \n")
        .unwrap();
    assert_eq!(sql, "SELECT * FROM sample");

    // A second request for the same input is served from the cache, with no
    // backend call needed.
    match client.begin_translate_to_sql("top customers") {
        TranslateQuery::Cached(cached) => assert_eq!(cached, "SELECT * FROM sample"),
        TranslateQuery::Ask(_) => panic!("the translation must be cached after success"),
    }
    // A different input is still a miss.
    assert!(matches!(client.begin_translate_to_sql("other"), TranslateQuery::Ask(_)));
}

#[test]
fn translate_cache_inserts_only_on_miss() {
    // Entries are inserted on a miss and never invalidated: validating the
    // same input again, as a driver does when it feeds a cached translation
    // back, leaves the cache as it is.
    let mut client = AgentClient::new("u".to_string(), "m".to_string());
    client.finish_translate_to_sql("q", "SELECT 1").unwrap();
    assert_eq!(client.cache.len(), 1);
    client.finish_translate_to_sql("q", "SELECT 1").unwrap();
    assert_eq!(client.cache.len(), 1);
    match client.begin_translate_to_sql("q") {
        TranslateQuery::Cached(sql) => assert_eq!(sql, "SELECT 1"),
        TranslateQuery::Ask(_) => panic!("the translation must stay cached"),
    }
}

#[test]
fn translate_reply_without_select_is_rejected() {
    let mut client = AgentClient::new("u".to_string(), "m".to_string());
    let r = client.finish_translate_to_sql("q", "I cannot answer that");
    assert_eq!(r, Err(AgentError::InvalidResponse));
    // Nothing was cached.
    assert!(matches!(client.begin_translate_to_sql("q"), TranslateQuery::Ask(_)));
}

#[test]
fn translate_validation_ignores_case() {
    let mut client = AgentClient::new("u".to_string(), "m".to_string());
    let sql = client.finish_translate_to_sql("q", "select 1").unwrap();
    assert_eq!(sql, "select 1");
}

#[test]
fn empty_dataset_answers_without_backend() {
    // An empty record collection gets the fixed no-data reply, and no
    // backend prompt is produced for it.
    let client = AgentClient::new("u".to_string(), "m".to_string());
    match client.begin_generate_insights(&vec![]) {
        InsightQuery::NoData(msg) => assert_eq!(msg, "No data available for analysis."),
        InsightQuery::Ask(_) => panic!("an empty dataset must not reach the backend"),
    }
}

#[test]
fn summarize_data_exact_text() {
    let client = AgentClient::new("u".to_string(), "m".to_string());
    let data = vec![record(1, "a", 100), record(2, "b", 200), record(3, "c", 150)];
    assert_eq!(
        client.summarize_data(&data),
        "Dataset contains 3 records. Values range from 100 to 200 with average 150. \
         Total sum: 450"
    );
}

#[test]
fn summarize_data_negative_values() {
    let client = AgentClient::new("u".to_string(), "m".to_string());
    let data = vec![record(1, "a", -7), record(2, "b", 4)];
    assert_eq!(
        client.summarize_data(&data),
        "Dataset contains 2 records. Values range from -7 to 4 with average -1. Total sum: -3"
    );
}

#[test]
fn summarize_data_empty() {
    let client = AgentClient::new("u".to_string(), "m".to_string());
    assert_eq!(client.summarize_data(&vec![]), "No data available");
}

#[test]
fn insights_prompt_embeds_summary() {
    let client = AgentClient::new("u".to_string(), "m".to_string());
    let data = vec![record(1, "a", 10)];
    match client.begin_generate_insights(&data) {
        InsightQuery::Ask(prompt) => {
            assert_eq!(
                prompt,
                "You are a data analyst. Analyze the following data and provide insights. \
                 Be concise but insightful. Focus on patterns, trends, and actionable \
                 insights. Data: Dataset contains 1 records. Values range from 10 to 10 \
                 with average 10. Total sum: 10"
            );
        }
        InsightQuery::NoData(_) => panic!("a non-empty dataset needs the backend"),
    }
}

#[test]
fn connection_verdict_distinguishes_failures() {
    let client = AgentClient::new("u".to_string(), "m".to_string());
    // A 2xx status means reachable and healthy.
    assert_eq!(client.connection_verdict(Ok(200)), Ok(true));
    assert_eq!(client.connection_verdict(Ok(204)), Ok(true));
    // A non-success status means reachable but unhealthy: false, no error.
    assert_eq!(client.connection_verdict(Ok(500)), Ok(false));
    // A transport failure is an error, so callers can tell the two apart.
    assert_eq!(
        client.connection_verdict(Err("connection refused".to_string())),
        Err(AgentError::Unreachable("connection refused".to_string()))
    );
}
