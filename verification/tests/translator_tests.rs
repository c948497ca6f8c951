use graphql_datafusion::query_translator::{
    QueryFilter, QueryParams, QuerySort, QueryTranslator, TranslationError,
};

fn filter(field: &str, operator: &str, value: &str) -> QueryFilter {
    QueryFilter {
        field: field.to_string(),
        operator: operator.to_string(),
        value: value.to_string(),
    }
}

fn plain_params(table: &str) -> QueryParams {
    QueryParams {
        table: table.to_string(),
        fields: None,
        filters: None,
        sort: None,
        limit: None,
        offset: None,
    }
}

#[test]
fn translate_bare_table() {
    let t = QueryTranslator::new();
    let sql = t.translate(&plain_params("customer")).unwrap();
    assert_eq!(sql, "SELECT * FROM customer");
}

#[test]
fn translate_orders_filter_limit() {
    // A structured query with one comparison filter and a limit.
    let t = QueryTranslator::new();
    let params = QueryParams {
        table: "orders".to_string(),
        fields: None,
        filters: Some(vec![filter("value", ">", "100")]),
        sort: None,
        limit: Some(10),
        offset: None,
    };
    let sql = t.translate(&params).unwrap();
    assert_eq!(sql, "SELECT * FROM orders WHERE value > '100' LIMIT 10");
}

#[test]
fn translate_full_clause_set() {
    let t = QueryTranslator::new();
    let params = QueryParams {
        table: "orders".to_string(),
        fields: Some(vec!["id".to_string(), "total".to_string()]),
        filters: Some(vec![filter("status", "=", "open"), filter("region", "LIKE", "'EU%'")]),
        sort: Some(vec![
            QuerySort { field: "total".to_string(), order: "desc".to_string() },
            QuerySort { field: "id".to_string(), order: "ascending".to_string() },
        ]),
        limit: Some(5),
        offset: Some(20),
    };
    let sql = t.translate(&params).unwrap();
    assert_eq!(
        sql,
        "SELECT id, total FROM orders WHERE status = 'open' AND region LIKE 'EU%' \
         ORDER BY total DESC, id ASC LIMIT 5 OFFSET 20"
    );
}

#[test]
fn translate_operator_case_insensitive() {
    let t = QueryTranslator::new();
    let params = QueryParams {
        table: "t".to_string(),
        fields: None,
        filters: Some(vec![filter("a", "In", "'one'")]),
        sort: None,
        limit: None,
        offset: None,
    };
    let sql = t.translate(&params).unwrap();
    assert_eq!(sql, "SELECT * FROM t WHERE a IN 'one'");
}

#[test]
fn translate_rejects_unknown_operator() {
    let t = QueryTranslator::new();
    let params = QueryParams {
        table: "t".to_string(),
        fields: None,
        filters: Some(vec![filter("a", "=", "1"), filter("b", "~", "2")]),
        sort: None,
        limit: None,
        offset: None,
    };
    assert_eq!(t.translate(&params), Err(TranslationError::InvalidOperator("~".to_string())));
}

#[test]
fn translate_rejects_unknown_sort_order() {
    let t = QueryTranslator::new();
    let params = QueryParams {
        table: "t".to_string(),
        fields: None,
        filters: None,
        sort: Some(vec![QuerySort { field: "a".to_string(), order: "sideways".to_string() }]),
        limit: None,
        offset: None,
    };
    assert_eq!(
        t.translate(&params),
        Err(TranslationError::InvalidSortOrder("sideways".to_string()))
    );
}

#[test]
fn translate_negative_limit_rendered() {
    let t = QueryTranslator::new();
    let params = QueryParams { limit: Some(-3), ..plain_params("t") };
    assert_eq!(t.translate(&params).unwrap(), "SELECT * FROM t LIMIT -3");
}

#[test]
fn escape_value_quotes_unquoted() {
    let t = QueryTranslator::new();
    assert_eq!(t.escape_value("100"), "'100'");
    assert_eq!(t.escape_value(""), "''");
}

#[test]
fn escape_value_keeps_quoted() {
    let t = QueryTranslator::new();
    assert_eq!(t.escape_value("'open'"), "'open'");
}

#[test]
fn natural_language_show() {
    let t = QueryTranslator::new();
    let sql = t.translate_natural_language("please show revenue from sales today").unwrap();
    assert_eq!(sql, "SELECT revenue FROM sales");
}

#[test]
fn natural_language_select_mixed_case() {
    let t = QueryTranslator::new();
    let sql = t.translate_natural_language("SELECT Name FROM Users").unwrap();
    assert_eq!(sql, "SELECT name FROM users");
}

#[test]
fn natural_language_no_match() {
    let t = QueryTranslator::new();
    assert_eq!(
        t.translate_natural_language("what is the weather"),
        Err(TranslationError::NoMatch)
    );
}

#[test]
fn natural_language_needs_from() {
    let t = QueryTranslator::new();
    assert_eq!(
        t.translate_natural_language("show everything please"),
        Err(TranslationError::NoMatch)
    );
}
