//! Validation of caller-supplied inputs before they enter the pipeline:
//! length and range checks, the operator and function whitelists, and the
//! statement-comment check on query text.

use vstd::prelude::*;
use vstd::string::*;
use crate::text::{contains_seq, str_contains, str_eq, lower_seq, eq_ignore_ascii_case};

verus! {

/// A query request as the caller hands it in.
#[derive(Clone, Debug)]
pub struct QueryInput {
    pub query: String,
    pub agent_type: Option<String>,
    pub limit: Option<i32>,
    pub offset: Option<i32>,
}

/// A filter as the caller hands it in.
#[derive(Clone, Debug)]
pub struct FilterInput {
    pub field: String,
    pub value: String,
    pub operator: String,
}

/// An aggregation request as the caller hands it in.
#[derive(Clone, Debug)]
pub struct AggregationInput {
    pub function: String,
    pub field: String,
    pub group_by: Option<Vec<String>>,
}

/// What a query input must satisfy: a non-empty query, a non-empty agent
/// type when given, a limit between 1 and 1000 when given, a non-negative
/// offset when given, and none of the statement-comment fragments.
pub open spec fn query_input_ok(q: QueryInput) -> bool {
    &&& q.query@.len() >= 1
    &&& match q.agent_type {
        Some(a) => a@.len() >= 1,
        None => true,
    }
    &&& match q.limit {
        Some(l) => 1 <= l <= 1000,
        None => true,
    }
    &&& match q.offset {
        Some(o) => o >= 0,
        None => true,
    }
    &&& !contains_seq(q.query@, ";--"@)
    &&& !contains_seq(q.query@, "/*"@)
    &&& !contains_seq(q.query@, "*/"@)
}

/// The operators a filter input may use.
pub open spec fn filter_operator_ok(op: Seq<char>) -> bool {
    op == "="@ || op == "!="@ || op == ">"@ || op == "<"@ || op == ">="@ || op == "<="@ || op
        == "LIKE"@
}

/// What a filter input must satisfy: its operator is whitelisted.
pub open spec fn filter_input_ok(f: FilterInput) -> bool {
    filter_operator_ok(f.operator@)
}

/// The aggregation functions allowed, compared ignoring ASCII case.
pub open spec fn aggregation_function_ok(f: Seq<char>) -> bool {
    let l = lower_seq(f);
    l == "sum"@ || l == "avg"@ || l == "count"@ || l == "min"@ || l == "max"@
}

/// What an aggregation input must satisfy: non-empty function and field, a
/// non-empty grouping list when given, and a whitelisted function.
pub open spec fn aggregation_input_ok(a: AggregationInput) -> bool {
    &&& a.function@.len() >= 1
    &&& a.field@.len() >= 1
    &&& match a.group_by {
        Some(g) => g@.len() >= 1,
        None => true,
    }
    &&& aggregation_function_ok(a.function@)
}

/// Accepts a query input exactly when [`query_input_ok`] holds, handing it
/// back unchanged; rejects it with a message otherwise.
pub fn validate_query_input(input: QueryInput) -> (r: Result<QueryInput, String>)
    ensures
        r is Ok <==> query_input_ok(input),
        r matches Ok(v) ==> v == input,
{
    if input.query.as_str().unicode_len() == 0 {
        return Err(String::from_str("Query cannot be empty"));
    }
    match &input.agent_type {
        Some(a) => {
            if a.as_str().unicode_len() == 0 {
                return Err(String::from_str("Agent type cannot be empty"));
            }
        },
        None => {},
    }
    match input.limit {
        Some(l) => {
            if !(1 <= l && l <= 1000) {
                return Err(String::from_str("Limit must be between 1 and 1000"));
            }
        },
        None => {},
    }
    match input.offset {
        Some(o) => {
            if o < 0 {
                return Err(String::from_str("Offset must be non-negative"));
            }
        },
        None => {},
    }
    if str_contains(input.query.as_str(), ";--") || str_contains(input.query.as_str(), "/*")
        || str_contains(input.query.as_str(), "*/") {
        return Err(String::from_str("Invalid characters in query"));
    }
    Ok(input)
}

/// Accepts a filter input exactly when [`filter_input_ok`] holds, handing
/// it back unchanged; rejects it with a message otherwise.
pub fn validate_filter_input(input: FilterInput) -> (r: Result<FilterInput, String>)
    ensures
        r is Ok <==> filter_input_ok(input),
        r matches Ok(v) ==> v == input,
{
    let op = input.operator.as_str();
    if str_eq(op, "=") || str_eq(op, "!=") || str_eq(op, ">") || str_eq(op, "<") || str_eq(
        op,
        ">=",
    ) || str_eq(op, "<=") || str_eq(op, "LIKE") {
        Ok(input)
    } else {
        Err(String::from_str("Invalid operator. Must be one of: =, !=, >, <, >=, <=, LIKE"))
    }
}

/// Accepts an aggregation input exactly when [`aggregation_input_ok`]
/// holds, handing it back unchanged; rejects it with a message otherwise.
pub fn validate_aggregation_input(input: AggregationInput) -> (r: Result<AggregationInput, String>)
    ensures
        r is Ok <==> aggregation_input_ok(input),
        r matches Ok(v) ==> v == input,
{
    if input.function.as_str().unicode_len() == 0 {
        return Err(String::from_str("Function cannot be empty"));
    }
    if input.field.as_str().unicode_len() == 0 {
        return Err(String::from_str("Field cannot be empty"));
    }
    match &input.group_by {
        Some(g) => {
            if g.len() == 0 {
                return Err(String::from_str("Group by cannot be empty"));
            }
        },
        None => {},
    }
    proof {
        reveal_strlit("sum");
        reveal_strlit("avg");
        reveal_strlit("count");
        reveal_strlit("min");
        reveal_strlit("max");
        assert(lower_seq("sum"@) =~= "sum"@);
        assert(lower_seq("avg"@) =~= "avg"@);
        assert(lower_seq("count"@) =~= "count"@);
        assert(lower_seq("min"@) =~= "min"@);
        assert(lower_seq("max"@) =~= "max"@);
    }
    let f = input.function.as_str();
    if eq_ignore_ascii_case(f, "sum") || eq_ignore_ascii_case(f, "avg") || eq_ignore_ascii_case(
        f,
        "count",
    ) || eq_ignore_ascii_case(f, "min") || eq_ignore_ascii_case(f, "max") {
        Ok(input)
    } else {
        Err(
            String::from_str(
                "Invalid aggregation function. Must be one of: sum, avg, count, min, max",
            ),
        )
    }
}

} // verus!
