//! Data model for query results and structured query parameters.
//!
//! A result row carries a stable identifier, a display name, and an integer
//! measure; rows are produced by the external query engine and never mutated
//! afterwards.

use vstd::prelude::*;

verus! {

/// One result row. The numeric measure is kept as an integer so that the
/// pipeline's arithmetic over it can be reasoned about exactly.
#[derive(Clone, Debug)]
pub struct Record {
    pub id: u64,
    pub name: String,
    pub value: i64,
}

/// A nation row of the sample dataset.
#[derive(Clone, Debug)]
pub struct Nation {
    pub n_nationkey: i64,
    pub n_name: String,
    pub n_regionkey: i64,
    pub n_comment: String,
}

/// A region row of the sample dataset.
#[derive(Clone, Debug)]
pub struct Region {
    pub r_regionkey: i64,
    pub r_name: String,
    pub r_comment: String,
}

/// Pagination bookkeeping for a query result page.
#[derive(Clone, Copy, Debug, PartialEq, Eq, Structural)]
pub struct PageInfo {
    pub current_page: i32,
    pub page_size: i32,
    pub total_pages: i32,
}

/// A plain table request: which table, and how much of it.
#[derive(Clone, Debug)]
pub struct QueryInput {
    pub table: String,
    pub limit: Option<i32>,
    pub offset: Option<i32>,
}

/// Structured query parameters over a fixed table.
#[derive(Clone, Debug)]
pub struct QueryParams {
    pub filters: Option<Vec<Filter>>,
    pub sort_by: Option<String>,
    pub sort_order: Option<SortOrder>,
    pub limit: Option<i32>,
    pub offset: Option<i32>,
}

/// One column comparison.
#[derive(Clone, Debug)]
pub struct Filter {
    pub column: String,
    pub operator: FilterOperator,
    pub value: String,
}

/// The comparison operators a structured filter may use.
#[derive(Clone, Copy, Debug, PartialEq, Eq, Structural)]
pub enum FilterOperator {
    Eq,
    Ne,
    Gt,
    Gte,
    Lt,
    Lte,
    Like,
    In,
}

/// The SQL token for each operator.
pub open spec fn operator_token(op: FilterOperator) -> Seq<char> {
    match op {
        FilterOperator::Eq => "="@,
        FilterOperator::Ne => "!="@,
        FilterOperator::Gt => ">"@,
        FilterOperator::Gte => ">="@,
        FilterOperator::Lt => "<"@,
        FilterOperator::Lte => "<="@,
        FilterOperator::Like => "LIKE"@,
        FilterOperator::In => "IN"@,
    }
}

impl FilterOperator {
    /// The operator as it appears in SQL text.
    pub fn as_sql(&self) -> (r: &'static str)
        ensures
            r@ == operator_token(*self),
    {
        match self {
            FilterOperator::Eq => "=",
            FilterOperator::Ne => "!=",
            FilterOperator::Gt => ">",
            FilterOperator::Gte => ">=",
            FilterOperator::Lt => "<",
            FilterOperator::Lte => "<=",
            FilterOperator::Like => "LIKE",
            FilterOperator::In => "IN",
        }
    }
}

/// Sort direction for an ordered query.
#[derive(Clone, Copy, Debug, PartialEq, Eq, Structural)]
pub enum SortOrder {
    Asc,
    Desc,
}

/// The SQL token for each sort direction.
pub open spec fn sort_order_token(o: SortOrder) -> Seq<char> {
    match o {
        SortOrder::Asc => "ASC"@,
        SortOrder::Desc => "DESC"@,
    }
}

impl SortOrder {
    /// The direction as it appears in SQL text.
    pub fn as_sql(&self) -> (r: &'static str)
        ensures
            r@ == sort_order_token(*self),
    {
        match self {
            SortOrder::Asc => "ASC",
            SortOrder::Desc => "DESC",
        }
    }
}

} // verus!
