//! Building SQL text from structured filter/sort/pagination parameters, and a
//! best-effort fallback parser for unstructured natural-language input.
//!
//! The rendered SQL is pinned down exactly by [`sql_of`]; translation fails
//! precisely when a filter operator or sort direction is not recognized.
//!
//! Values are escaped naively: a value is wrapped in single quotes unless the
//! caller already quoted it. This does not prevent SQL injection through
//! crafted values; execution against the external engine should be
//! parameterized in production.

use vstd::prelude::*;
use vstd::string::*;
use crate::text::{
    lower_seq, str_to_chars, eq_ignore_ascii_case, i64_to_string, dec_int, chars_range_to_string,
    chars_to_lower, is_word_char, is_space_char, word_end, space_end, is_word_char_x,
    is_space_char_x, word_end_x, space_end_x,
};

verus! {

/// One filter of a structured query: a column, a comparison operator given as
/// text, and a comparison value.
#[derive(Clone, Debug)]
pub struct QueryFilter {
    pub field: String,
    pub operator: String,
    pub value: String,
}

/// One sort key of a structured query, with its direction given as text.
#[derive(Clone, Debug)]
pub struct QuerySort {
    pub field: String,
    pub order: String,
}

/// Structured query parameters: a table, and optionally a field list,
/// filters, sort keys, and pagination bounds.
#[derive(Clone, Debug)]
pub struct QueryParams {
    pub table: String,
    pub fields: Option<Vec<String>>,
    pub filters: Option<Vec<QueryFilter>>,
    pub sort: Option<Vec<QuerySort>>,
    pub limit: Option<i32>,
    pub offset: Option<i32>,
}

/// Why a translation was rejected.
#[derive(Clone, Debug, PartialEq, Eq)]
pub enum TranslationError {
    /// A filter operator outside the recognized set; carries the operator.
    InvalidOperator(String),
    /// A sort direction outside the recognized set; carries the direction.
    InvalidSortOrder(String),
    /// Natural-language input that the fallback pattern does not match.
    NoMatch,
}

/// The recognized filter operators, compared ignoring ASCII case.
pub open spec fn recognized_operator(op: Seq<char>) -> bool {
    let l = lower_seq(op);
    l == "="@ || l == "!="@ || l == ">"@ || l == "<"@ || l == ">="@ || l == "<="@ || l == "like"@
        || l == "in"@
}

/// The SQL token emitted for a recognized operator.
pub open spec fn operator_symbol(op: Seq<char>) -> Seq<char> {
    let l = lower_seq(op);
    if l == "like"@ {
        "LIKE"@
    } else if l == "in"@ {
        "IN"@
    } else {
        l
    }
}

/// The recognized sort directions, compared ignoring ASCII case.
pub open spec fn recognized_direction(d: Seq<char>) -> bool {
    let l = lower_seq(d);
    l == "asc"@ || l == "ascending"@ || l == "desc"@ || l == "descending"@
}

/// The SQL token emitted for a recognized sort direction.
pub open spec fn direction_symbol(d: Seq<char>) -> Seq<char> {
    let l = lower_seq(d);
    if l == "asc"@ || l == "ascending"@ {
        "ASC"@
    } else {
        "DESC"@
    }
}

/// A value wrapped in single quotes, unless the caller already quoted it.
pub open spec fn escaped(v: Seq<char>) -> Seq<char> {
    if v.len() >= 1 && v[0] == '\'' && v[v.len() - 1] == '\'' {
        v
    } else {
        seq!['\''] + v + seq!['\'']
    }
}

/// The given parts joined by the separator, in order.
pub open spec fn joined(parts: Seq<Seq<char>>, sep: Seq<char>) -> Seq<char>
    decreases parts.len(),
{
    if parts.len() == 0 {
        Seq::empty()
    } else if parts.len() == 1 {
        parts[0]
    } else {
        joined(parts.drop_last(), sep) + sep + parts.last()
    }
}

/// The rendering of one filter: `field op value`.
pub open spec fn filter_sql(f: QueryFilter) -> Seq<char> {
    f.field@ + seq![' '] + operator_symbol(f.operator@) + seq![' '] + escaped(f.value@)
}

/// The rendering of one sort key: `field ASC` or `field DESC`.
pub open spec fn sort_sql(s: QuerySort) -> Seq<char> {
    s.field@ + seq![' '] + direction_symbol(s.order@)
}

/// Whether every filter operator is recognized.
pub open spec fn filters_ok(fs: Seq<QueryFilter>) -> bool {
    forall|i: int| 0 <= i < fs.len() ==> recognized_operator(#[trigger] fs[i].operator@)
}

/// Whether every sort direction is recognized.
pub open spec fn sorts_ok(ss: Seq<QuerySort>) -> bool {
    forall|i: int| 0 <= i < ss.len() ==> recognized_direction(#[trigger] ss[i].order@)
}

/// Whether index `i` holds the first unrecognized filter operator.
pub open spec fn first_invalid_operator(fs: Seq<QueryFilter>, i: int) -> bool {
    &&& 0 <= i < fs.len()
    &&& !recognized_operator(fs[i].operator@)
    &&& forall|j: int| 0 <= j < i ==> recognized_operator(#[trigger] fs[j].operator@)
}

/// Whether index `i` holds the first unrecognized sort direction.
pub open spec fn first_invalid_direction(ss: Seq<QuerySort>, i: int) -> bool {
    &&& 0 <= i < ss.len()
    &&& !recognized_direction(ss[i].order@)
    &&& forall|j: int| 0 <= j < i ==> recognized_direction(#[trigger] ss[j].order@)
}

/// Whether the parameters translate at all.
pub open spec fn params_ok(p: QueryParams) -> bool {
    &&& match p.filters {
        Some(fs) => filters_ok(fs@),
        None => true,
    }
    &&& match p.sort {
        Some(ss) => sorts_ok(ss@),
        None => true,
    }
}

/// The `SELECT` list: the named fields joined by commas, or `*`.
pub open spec fn select_list_of(p: QueryParams) -> Seq<char> {
    match p.fields {
        Some(fs) => joined(fs@.map_values(|f: String| f@), ", "@),
        None => "*"@,
    }
}

/// The `WHERE` clause, present exactly when a filter list is given.
pub open spec fn where_clause_of(p: QueryParams) -> Seq<char> {
    match p.filters {
        Some(fs) => " WHERE "@ + joined(fs@.map_values(|f: QueryFilter| filter_sql(f)), " AND "@),
        None => Seq::empty(),
    }
}

/// The `ORDER BY` clause, present exactly when a sort list is given.
pub open spec fn order_clause_of(p: QueryParams) -> Seq<char> {
    match p.sort {
        Some(ss) => " ORDER BY "@ + joined(ss@.map_values(|s: QuerySort| sort_sql(s)), ", "@),
        None => Seq::empty(),
    }
}

/// The `LIMIT` clause, present exactly when a limit is given.
pub open spec fn limit_clause_of(p: QueryParams) -> Seq<char> {
    match p.limit {
        Some(l) => " LIMIT "@ + dec_int(l as int),
        None => Seq::empty(),
    }
}

/// The `OFFSET` clause, present exactly when an offset is given.
pub open spec fn offset_clause_of(p: QueryParams) -> Seq<char> {
    match p.offset {
        Some(o) => " OFFSET "@ + dec_int(o as int),
        None => Seq::empty(),
    }
}

/// The whole rendered statement.
pub open spec fn sql_of(p: QueryParams) -> Seq<char> {
    "SELECT "@ + select_list_of(p) + " FROM "@ + p.table@ + where_clause_of(p) + order_clause_of(p)
        + limit_clause_of(p) + offset_clause_of(p)
}

/// Translates structured parameters and natural-language fallback input into
/// SQL text.
pub struct QueryTranslator {}

/// The fallback pattern, tried at position `i` of the lower-cased input: the
/// keyword `show` or `select`, then whitespace, a word (the field), more
/// whitespace, the keyword `from`, whitespace again, and a word (the table).
/// Word and whitespace runs are maximal. On a match, the field and the table.
pub open spec fn match_at(t: Seq<char>, i: int) -> Option<(Seq<char>, Seq<char>)> {
    let kw_end: int = if crate::text::occurs_at(t, "select"@, i) {
        i + 6
    } else if crate::text::occurs_at(t, "show"@, i) {
        i + 4
    } else {
        -1
    };
    if kw_end < 0 {
        None
    } else {
        let s1 = space_end(t, kw_end);
        let w1e = word_end(t, s1);
        let s2 = space_end(t, w1e);
        if s1 == kw_end || w1e == s1 || s2 == w1e {
            None
        } else if crate::text::occurs_at(t, "from"@, s2) {
            let s3 = space_end(t, s2 + 4);
            let w2e = word_end(t, s3);
            if s3 == s2 + 4 || w2e == s3 {
                None
            } else {
                Some((t.subrange(s1, w1e), t.subrange(s3, w2e)))
            }
        } else {
            None
        }
    }
}

/// The leftmost match of the fallback pattern at or after position `i`.
pub open spec fn first_match(t: Seq<char>, i: int) -> Option<(Seq<char>, Seq<char>)>
    decreases t.len() - i,
{
    if !(0 <= i <= t.len()) {
        None
    } else if match_at(t, i) is Some {
        match_at(t, i)
    } else if i == t.len() {
        None
    } else {
        first_match(t, i + 1)
    }
}

/// Tries the fallback pattern at one position; on a match, the boundaries of
/// the field and table words.
fn try_match(t: &Vec<char>, i: usize) -> (r: Option<(usize, usize, usize, usize)>)
    requires
        i <= t@.len(),
    ensures
        match r {
            Some(m) => {
                &&& i <= m.0 <= m.1 <= t@.len()
                &&& m.1 <= m.2 <= m.3 <= t@.len()
                &&& match_at(t@, i as int) == Some(
                    (
                        t@.subrange(m.0 as int, m.1 as int),
                        t@.subrange(m.2 as int, m.3 as int),
                    ),
                )
            },
            None => match_at(t@, i as int) is None,
        },
{
    proof {
        reveal_strlit("select");
        reveal_strlit("show");
        reveal_strlit("from");
    }
    let select_pat = str_to_chars("select");
    let show_pat = str_to_chars("show");
    let from_pat = str_to_chars("from");
    let n = t.len();
    let kw_end: usize = if n >= 6 && i <= n - 6 && crate::text::chars_match_at(t, &select_pat, i) {
        i + 6
    } else if n >= 4 && i <= n - 4 && crate::text::chars_match_at(t, &show_pat, i) {
        i + 4
    } else {
        return None;
    };
    let s1 = space_end_x(t, kw_end);
    if s1 == kw_end {
        return None;
    }
    let w1e = word_end_x(t, s1);
    if w1e == s1 {
        return None;
    }
    let s2 = space_end_x(t, w1e);
    if s2 == w1e {
        return None;
    }
    if !(n >= 4 && s2 <= n - 4 && crate::text::chars_match_at(t, &from_pat, s2)) {
        return None;
    }
    let s3 = space_end_x(t, s2 + 4);
    if s3 == s2 + 4 {
        return None;
    }
    let w2e = word_end_x(t, s3);
    if w2e == s3 {
        return None;
    }
    Some((s1, w1e, s3, w2e))
}

/// The SQL token for an operator, or `None` when it is not recognized.
fn operator_sql(op: &str) -> (r: Option<&'static str>)
    ensures
        match r {
            Some(t) => recognized_operator(op@) && t@ == operator_symbol(op@),
            None => !recognized_operator(op@),
        },
{
    proof {
        reveal_strlit("=");
        reveal_strlit("!=");
        reveal_strlit(">");
        reveal_strlit("<");
        reveal_strlit(">=");
        reveal_strlit("<=");
        reveal_strlit("like");
        reveal_strlit("in");
        reveal_strlit("LIKE");
        reveal_strlit("IN");
        assert(lower_seq("="@) =~= "="@);
        assert(lower_seq("!="@) =~= "!="@);
        assert(lower_seq(">"@) =~= ">"@);
        assert(lower_seq("<"@) =~= "<"@);
        assert(lower_seq(">="@) =~= ">="@);
        assert(lower_seq("<="@) =~= "<="@);
        assert(lower_seq("like"@) =~= "like"@);
        assert(lower_seq("in"@) =~= "in"@);
    }
    if eq_ignore_ascii_case(op, "=") {
        Some("=")
    } else if eq_ignore_ascii_case(op, "!=") {
        Some("!=")
    } else if eq_ignore_ascii_case(op, ">") {
        Some(">")
    } else if eq_ignore_ascii_case(op, "<") {
        Some("<")
    } else if eq_ignore_ascii_case(op, ">=") {
        Some(">=")
    } else if eq_ignore_ascii_case(op, "<=") {
        Some("<=")
    } else if eq_ignore_ascii_case(op, "like") {
        Some("LIKE")
    } else if eq_ignore_ascii_case(op, "in") {
        Some("IN")
    } else {
        None
    }
}

/// The SQL token for a sort direction, or `None` when it is not recognized.
fn direction_sql(d: &str) -> (r: Option<&'static str>)
    ensures
        match r {
            Some(t) => recognized_direction(d@) && t@ == direction_symbol(d@),
            None => !recognized_direction(d@),
        },
{
    proof {
        reveal_strlit("asc");
        reveal_strlit("ascending");
        reveal_strlit("desc");
        reveal_strlit("descending");
        reveal_strlit("ASC");
        reveal_strlit("DESC");
        assert(lower_seq("asc"@) =~= "asc"@);
        assert(lower_seq("ascending"@) =~= "ascending"@);
        assert(lower_seq("desc"@) =~= "desc"@);
        assert(lower_seq("descending"@) =~= "descending"@);
    }
    if eq_ignore_ascii_case(d, "asc") || eq_ignore_ascii_case(d, "ascending") {
        Some("ASC")
    } else if eq_ignore_ascii_case(d, "desc") || eq_ignore_ascii_case(d, "descending") {
        Some("DESC")
    } else {
        None
    }
}

/// The given strings joined by the separator.
fn join_strings(parts: &Vec<String>, sep: &'static str) -> (r: String)
    ensures
        r@ == joined(parts@.map_values(|s: String| s@), sep@),
{
    let ghost views = parts@.map_values(|s: String| s@);
    let mut out = String::new();
    let mut i: usize = 0;
    while i < parts.len()
        invariant
            i <= parts@.len(),
            views == parts@.map_values(|s: String| s@),
            out@ == joined(views.take(i as int), sep@),
        decreases parts@.len() - i,
    {
        if i > 0 {
            out = out.concat(sep);
        }
        out = out.concat(parts[i].as_str());
        proof {
            assert(views.take(i + 1).drop_last() =~= views.take(i as int));
            assert(views.take(i + 1).last() == views[i as int]);
        }
        i = i + 1;
    }
    proof {
        assert(views.take(parts@.len() as int) =~= views);
    }
    out
}

impl QueryTranslator {
    /// A fresh translator.
    pub fn new() -> (r: Self) {
        QueryTranslator {  }
    }

    /// The comparison value as it is embedded in SQL text: wrapped in single
    /// quotes unless the caller already quoted it.
    pub fn escape_value(&self, value: &str) -> (r: String)
        ensures
            r@ == escaped(value@),
    {
        let chars = str_to_chars(value);
        if chars.len() >= 1 && chars[0] == '\'' && chars[chars.len() - 1] == '\'' {
            String::from_str(value)
        } else {
            proof {
                reveal_strlit("'");
            }
            String::from_str("'").concat(value).concat("'")
        }
    }

    /// The `WHERE` clause for a filter list, or the first unrecognized
    /// operator.
    fn build_where_clause(&self, filters: &Vec<QueryFilter>) -> (r: Result<String, TranslationError>)
        ensures
            filters_ok(filters@) <==> r is Ok,
            match r {
                Ok(s) => s@ == " WHERE "@ + joined(
                    filters@.map_values(|f: QueryFilter| filter_sql(f)),
                    " AND "@,
                ),
                Err(e) => e matches TranslationError::InvalidOperator(o) && exists|i: int|
                    #[trigger] first_invalid_operator(filters@, i) && o@ == filters@[i].operator@,
            },
    {
        let ghost views = filters@.map_values(|f: QueryFilter| filter_sql(f));
        let mut conds = String::new();
        let mut i: usize = 0;
        while i < filters.len()
            invariant
                i <= filters@.len(),
                views == filters@.map_values(|f: QueryFilter| filter_sql(f)),
                conds@ == joined(views.take(i as int), " AND "@),
                forall|j: int| 0 <= j < i ==> recognized_operator(#[trigger] filters@[j].operator@),
            decreases filters@.len() - i,
        {
            let f = &filters[i];
            match operator_sql(f.operator.as_str()) {
                None => {
                    proof {
                        assert(first_invalid_operator(filters@, i as int));
                    }
                    return Err(TranslationError::InvalidOperator(f.operator.clone()));
                },
                Some(tok) => {
                    let escaped_value = self.escape_value(f.value.as_str());
                    if i > 0 {
                        conds = conds.concat(" AND ");
                    }
                    conds = conds.concat(f.field.as_str()).concat(" ").concat(tok).concat(
                        " ",
                    ).concat(escaped_value.as_str());
                    proof {
                        reveal_strlit(" ");
                        assert(views.take(i + 1).drop_last() =~= views.take(i as int));
                        assert(views.take(i + 1).last() == filter_sql(filters@[i as int]));
                        assert(conds@ =~= joined(views.take(i + 1), " AND "@));
                    }
                },
            }
            i = i + 1;
        }
        proof {
            assert(views.take(filters@.len() as int) =~= views);
        }
        Ok(String::from_str(" WHERE ").concat(conds.as_str()))
    }

    /// The `ORDER BY` clause for a sort list, or the first unrecognized
    /// direction.
    fn build_order_by_clause(&self, sort: &Vec<QuerySort>) -> (r: Result<String, TranslationError>)
        ensures
            sorts_ok(sort@) <==> r is Ok,
            match r {
                Ok(s) => s@ == " ORDER BY "@ + joined(
                    sort@.map_values(|k: QuerySort| sort_sql(k)),
                    ", "@,
                ),
                Err(e) => e matches TranslationError::InvalidSortOrder(o) && exists|i: int|
                    #[trigger] first_invalid_direction(sort@, i) && o@ == sort@[i].order@,
            },
    {
        let ghost views = sort@.map_values(|k: QuerySort| sort_sql(k));
        let mut clauses = String::new();
        let mut i: usize = 0;
        while i < sort.len()
            invariant
                i <= sort@.len(),
                views == sort@.map_values(|k: QuerySort| sort_sql(k)),
                clauses@ == joined(views.take(i as int), ", "@),
                forall|j: int| 0 <= j < i ==> recognized_direction(#[trigger] sort@[j].order@),
            decreases sort@.len() - i,
        {
            let k = &sort[i];
            match direction_sql(k.order.as_str()) {
                None => {
                    proof {
                        assert(first_invalid_direction(sort@, i as int));
                    }
                    return Err(TranslationError::InvalidSortOrder(k.order.clone()));
                },
                Some(tok) => {
                    if i > 0 {
                        clauses = clauses.concat(", ");
                    }
                    clauses = clauses.concat(k.field.as_str()).concat(" ").concat(tok);
                    proof {
                        reveal_strlit(" ");
                        assert(views.take(i + 1).drop_last() =~= views.take(i as int));
                        assert(views.take(i + 1).last() == sort_sql(sort@[i as int]));
                        assert(clauses@ =~= joined(views.take(i + 1), ", "@));
                    }
                },
            }
            i = i + 1;
        }
        proof {
            assert(views.take(sort@.len() as int) =~= views);
        }
        Ok(String::from_str(" ORDER BY ").concat(clauses.as_str()))
    }

    /// Renders the statement for the given parameters, or reports the first
    /// unrecognized operator or direction. Succeeds exactly when every filter
    /// operator and sort direction is recognized, and then returns exactly
    /// [`sql_of`] of the parameters. The error is pinned down too — the
    /// first unrecognized filter operator, else the first unrecognized sort
    /// direction — so translation is deterministic and retrying it can never
    /// change the outcome.
    pub fn translate(&self, params: &QueryParams) -> (r: Result<String, TranslationError>)
        ensures
            params_ok(*params) <==> r is Ok,
            match r {
                Ok(s) => s@ == sql_of(*params),
                Err(e) => match e {
                    TranslationError::InvalidOperator(o) => params.filters matches Some(fs)
                        && exists|i: int|
                        #[trigger] first_invalid_operator(fs@, i) && o@ == fs@[i].operator@,
                    TranslationError::InvalidSortOrder(o) => {
                        &&& match params.filters {
                            Some(fs) => filters_ok(fs@),
                            None => true,
                        }
                        &&& params.sort matches Some(ss) && exists|i: int|
                            #[trigger] first_invalid_direction(ss@, i) && o@ == ss@[i].order@
                    },
                    TranslationError::NoMatch => false,
                },
            },
    {
        let select_list: String = match &params.fields {
            Some(fs) => join_strings(fs, ", "),
            None => String::from_str("*"),
        };
        let mut query = String::from_str("SELECT ").concat(select_list.as_str()).concat(
            " FROM ",
        ).concat(params.table.as_str());
        assert(query@ == "SELECT "@ + select_list_of(*params) + " FROM "@ + params.table@);
        match &params.filters {
            Some(fs) => {
                match self.build_where_clause(fs) {
                    Ok(w) => {
                        query = query.concat(w.as_str());
                    },
                    Err(e) => {
                        return Err(e);
                    },
                }
            },
            None => {},
        }
        assert(query@ == "SELECT "@ + select_list_of(*params) + " FROM "@ + params.table@
            + where_clause_of(*params));
        match &params.sort {
            Some(ss) => {
                match self.build_order_by_clause(ss) {
                    Ok(o) => {
                        query = query.concat(o.as_str());
                    },
                    Err(e) => {
                        return Err(e);
                    },
                }
            },
            None => {},
        }
        match params.limit {
            Some(l) => {
                query = query.concat(" LIMIT ").concat(i64_to_string(l as i64).as_str());
            },
            None => {},
        }
        match params.offset {
            Some(o) => {
                query = query.concat(" OFFSET ").concat(i64_to_string(o as i64).as_str());
            },
            None => {},
        }
        proof {
            assert(query@ =~= sql_of(*params));
        }
        Ok(query)
    }

    /// A minimal fallback for unstructured input: the leftmost occurrence of
    /// `show <field> from <table>` or `select <field> from <table>`, matched
    /// on the ASCII-lower-cased input, becomes `SELECT <field> FROM <table>`.
    /// Fails with [`TranslationError::NoMatch`] exactly when the pattern does
    /// not occur.
    pub fn translate_natural_language(&self, input: &str) -> (r: Result<String, TranslationError>)
        ensures
            first_match(lower_seq(input@), 0) is Some <==> r is Ok,
            match r {
                Ok(s) => first_match(lower_seq(input@), 0) matches Some(m) && s@ == "SELECT "@
                    + m.0 + " FROM "@ + m.1,
                Err(e) => e == TranslationError::NoMatch,
            },
    {
        let chars = str_to_chars(input);
        let low = chars_to_lower(&chars);
        let n = low.len();
        let ghost t = low@;
        let mut i: usize = 0;
        while i < n
            invariant
                i <= n,
                n == t.len(),
                t == lower_seq(input@),
                low@ == t,
                first_match(t, 0) == first_match(t, i as int),
            decreases n - i,
        {
            match try_match(&low, i) {
                Some(m) => {
                    let (s1, w1e, s3, w2e) = m;
                    let field = chars_range_to_string(&low, s1, w1e);
                    let table = chars_range_to_string(&low, s3, w2e);
                    let sql = String::from_str("SELECT ").concat(field.as_str()).concat(
                        " FROM ",
                    ).concat(table.as_str());
                    return Ok(sql);
                },
                None => {},
            }
            proof {
                assert(first_match(t, i as int) == first_match(t, i + 1));
            }
            i = i + 1;
        }
        proof {
            reveal_strlit("select");
            reveal_strlit("show");
            assert(match_at(t, n as int) is None);
            assert(first_match(t, n as int) is None);
        }
        Err(TranslationError::NoMatch)
    }
}

} // verus!
