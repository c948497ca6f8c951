use graphql_datafusion::agent_types::{AgentConfig, Filter};
use graphql_datafusion::helpers::{apply_filters, parse_insights};
use graphql_datafusion::models::Record;

fn record(id: u64, name: &str, value: i64) -> Record {
    Record { id, name: name.to_string(), value }
}

fn filter(field: &str, operator: &str, value: &str) -> Filter {
    Filter { field: field.to_string(), operator: operator.to_string(), value: value.to_string() }
}

fn config(agent_type: &str) -> AgentConfig {
    AgentConfig { agent_type: agent_type.to_string(), visualization: None, filters: None }
}

fn names(records: &[Record]) -> Vec<String> {
    records.iter().map(|r| r.name.clone()).collect()
}

#[test]
fn apply_filters_greater_than() {
    let records = vec![record(1, "a", 100), record(2, "b", 200), record(3, "c", 150)];
    let kept = apply_filters(records, &vec![filter("value", ">", "120")]);
    assert_eq!(names(&kept), vec!["b", "c"]);
}

#[test]
fn apply_filters_less_than() {
    let records = vec![record(1, "a", 100), record(2, "b", 200)];
    let kept = apply_filters(records, &vec![filter("value", "<", "150")]);
    assert_eq!(names(&kept), vec!["a"]);
}

#[test]
fn apply_filters_equality_matches_name_or_value() {
    let records = vec![record(1, "alpha", 100), record(2, "beta", 42), record(3, "42", 7)];
    let by_name = apply_filters(records.clone(), &vec![filter("name", "=", "alpha")]);
    assert_eq!(names(&by_name), vec!["alpha"]);
    // "=" also matches the measure written in decimal.
    let by_value = apply_filters(records, &vec![filter("value", "=", "42")]);
    assert_eq!(names(&by_value), vec!["beta", "42"]);
}

#[test]
fn apply_filters_unknown_operator_rejects_all() {
    let records = vec![record(1, "a", 100)];
    let kept = apply_filters(records, &vec![filter("value", ">=", "1")]);
    assert!(kept.is_empty());
}

#[test]
fn apply_filters_unparsable_bound_compares_to_zero() {
    let records = vec![record(1, "a", 5), record(2, "b", -5)];
    let kept = apply_filters(records, &vec![filter("value", ">", "lots")]);
    assert_eq!(names(&kept), vec!["a"]);
}

#[test]
fn apply_filters_conjunction() {
    let records = vec![record(1, "a", 100), record(2, "b", 200), record(3, "c", 150)];
    let kept = apply_filters(
        records,
        &vec![filter("value", ">", "120"), filter("value", "<", "180")],
    );
    assert_eq!(names(&kept), vec!["c"]);
}

#[test]
fn parse_insights_lines() {
    let text = "Trend: sales rose 42 percent\n\nnot an insight line\nTop item: gadget at 7.5 each\n";
    let insights = parse_insights(text.to_string(), &config("analyst")).unwrap();
    assert_eq!(insights.len(), 2);

    assert_eq!(insights[0].title, "Trend");
    assert_eq!(insights[0].description, "sales rose 42 percent");
    assert_eq!(insights[0].value, Some("42".to_string()));
    assert!(insights[0].visualization.is_none());
    assert_eq!(insights[0].tags, vec!["analyst".to_string()]);

    assert_eq!(insights[1].title, "Top item");
    assert_eq!(insights[1].description, "gadget at 7.5 each");
    assert_eq!(insights[1].value, Some("7.5".to_string()));
}

#[test]
fn parse_insights_without_number() {
    let text = "Note: nothing numeric here";
    let insights = parse_insights(text.to_string(), &config("t")).unwrap();
    assert_eq!(insights.len(), 1);
    assert_eq!(insights[0].value, None);
}

#[test]
fn parse_insights_skips_blank_and_shapeless_lines() {
    let text = "   \nno colon here\nx\n";
    let insights = parse_insights(text.to_string(), &config("t")).unwrap();
    assert!(insights.is_empty());
}

#[test]
fn parse_insights_handles_crlf() {
    let text = "First: one 1\r\nSecond: two 2\r\n";
    let insights = parse_insights(text.to_string(), &config("t")).unwrap();
    assert_eq!(insights.len(), 2);
    assert_eq!(insights[0].title, "First");
    assert_eq!(insights[1].description, "two 2");
}

#[test]
fn parse_insights_number_needs_word_boundary() {
    // `x42` is not a standalone number; the later `42` is.
    let text = "Count: x42 then 42 wide";
    let insights = parse_insights(text.to_string(), &config("t")).unwrap();
    assert_eq!(insights[0].value, Some("42".to_string()));
}

#[test]
fn parse_insights_splits_at_first_colon() {
    let text = "Ratio: a:b holds 3 times";
    let insights = parse_insights(text.to_string(), &config("t")).unwrap();
    assert_eq!(insights[0].title, "Ratio");
    assert_eq!(insights[0].description, "a:b holds 3 times");
}
