//! Table schemas as plain data: a cache of column layouts per table, the
//! mapping from column types to Rust type names, and name casing.

use vstd::prelude::*;
use vstd::string::*;
use crate::text::{str_eq, upper_char, upper_char_x};

verus! {

/// A column's type, as the external engine reports it.
#[derive(Clone, Copy, Debug, PartialEq, Eq, Structural)]
pub enum ColumnType {
    Int8,
    Int16,
    Int32,
    Int64,
    UInt8,
    UInt16,
    UInt32,
    UInt64,
    Float32,
    Float64,
    Utf8,
    Boolean,
    Timestamp,
    Date,
    Time,
    Binary,
    LargeBinary,
    List,
    Other,
}

/// One column of a table.
#[derive(Clone, Debug)]
pub struct ColumnField {
    pub name: String,
    pub data_type: ColumnType,
}

/// The column layout of one table.
#[derive(Clone, Debug)]
pub struct TableSchema {
    pub fields: Vec<ColumnField>,
}

/// The Rust type name each column type maps to.
pub open spec fn rust_type_name(t: ColumnType) -> Seq<char> {
    match t {
        ColumnType::Int8 => "i32"@,
        ColumnType::Int16 => "i32"@,
        ColumnType::Int32 => "i32"@,
        ColumnType::Int64 => "i64"@,
        ColumnType::UInt8 => "u32"@,
        ColumnType::UInt16 => "u32"@,
        ColumnType::UInt32 => "u32"@,
        ColumnType::UInt64 => "u64"@,
        ColumnType::Float32 => "f32"@,
        ColumnType::Float64 => "f64"@,
        ColumnType::Utf8 => "String"@,
        ColumnType::Boolean => "bool"@,
        ColumnType::Timestamp => "chrono::DateTime<chrono::Utc>"@,
        ColumnType::Date => "chrono::NaiveDate"@,
        ColumnType::Time => "chrono::NaiveTime"@,
        ColumnType::Binary => "Vec<u8>"@,
        ColumnType::LargeBinary => "Vec<u8>"@,
        ColumnType::List => "Vec<serde_json::Value>"@,
        ColumnType::Other => "serde_json::Value"@,
    }
}

/// The cached schema for a table name, scanning from the front.
pub open spec fn schema_lookup(c: Seq<(String, TableSchema)>, name: Seq<char>) -> Option<
    TableSchema,
>
    decreases c.len(),
{
    if c.len() == 0 {
        None
    } else if c[0].0@ == name {
        Some(c[0].1)
    } else {
        schema_lookup(c.drop_first(), name)
    }
}

/// Snake case turned to camel case: underscores vanish, and each character
/// after one — as well as the first — is upper-cased.
pub open spec fn camel(s: Seq<char>, capitalize: bool) -> Seq<char>
    decreases s.len(),
{
    if s.len() == 0 {
        Seq::empty()
    } else if s[0] == '_' {
        camel(s.drop_first(), true)
    } else if capitalize {
        seq![upper_char(s[0])] + camel(s.drop_first(), false)
    } else {
        seq![s[0]] + camel(s.drop_first(), false)
    }
}

/// A cache of inferred table schemas.
pub struct SchemaInference {
    /// Table name to schema; the newest entry for a name wins.
    pub schema_cache: Vec<(String, TableSchema)>,
}

impl SchemaInference {
    /// An empty cache.
    pub fn new() -> (r: SchemaInference)
        ensures
            r.schema_cache@.len() == 0,
    {
        SchemaInference { schema_cache: Vec::new() }
    }

    /// Caches a schema for a table; a schema cached earlier for the same
    /// name is replaced.
    pub fn cache_schema(&mut self, table_name: &str, schema: TableSchema)
        ensures
            schema_lookup(final (self).schema_cache@, table_name@) == Some(schema),
            forall|other: Seq<char>|
                other != table_name@ ==> #[trigger] schema_lookup(
                    final (self).schema_cache@,
                    other,
                ) == schema_lookup(old(self).schema_cache@, other),
    {
        let entry = (String::from_str(table_name), schema);
        self.schema_cache.insert(0, entry);
        proof {
            assert(self.schema_cache@.drop_first() =~= old(self).schema_cache@);
        }
    }

    /// The cached schema for a table, if one is cached.
    pub fn get_cached_schema(&self, table_name: &str) -> (r: Option<&TableSchema>)
        ensures
            match r {
                Some(schema) => schema_lookup(self.schema_cache@, table_name@) == Some(*schema),
                None => schema_lookup(self.schema_cache@, table_name@) is None,
            },
    {
        proof {
            assert(self.schema_cache@.skip(0) =~= self.schema_cache@);
        }
        let mut i: usize = 0;
        while i < self.schema_cache.len()
            invariant
                i <= self.schema_cache@.len(),
                schema_lookup(self.schema_cache@, table_name@) == schema_lookup(
                    self.schema_cache@.skip(i as int),
                    table_name@,
                ),
            decreases self.schema_cache@.len() - i,
        {
            proof {
                assert(self.schema_cache@.skip(i as int)[0] == self.schema_cache@[i as int]);
                assert(self.schema_cache@.skip(i as int).drop_first() =~= self.schema_cache@.skip(
                    i + 1,
                ));
            }
            if str_eq(self.schema_cache[i].0.as_str(), table_name) {
                return Some(&self.schema_cache[i].1);
            }
            i = i + 1;
        }
        None
    }

    /// The Rust type name for a column type, exactly as [`rust_type_name`]
    /// says.
    pub fn arrow_type_to_rust_type(data_type: &ColumnType) -> (r: String)
        ensures
            r@ == rust_type_name(*data_type),
    {
        let name: &'static str = match data_type {
            ColumnType::Int8 => "i32",
            ColumnType::Int16 => "i32",
            ColumnType::Int32 => "i32",
            ColumnType::Int64 => "i64",
            ColumnType::UInt8 => "u32",
            ColumnType::UInt16 => "u32",
            ColumnType::UInt32 => "u32",
            ColumnType::UInt64 => "u64",
            ColumnType::Float32 => "f32",
            ColumnType::Float64 => "f64",
            ColumnType::Utf8 => "String",
            ColumnType::Boolean => "bool",
            ColumnType::Timestamp => "chrono::DateTime<chrono::Utc>",
            ColumnType::Date => "chrono::NaiveDate",
            ColumnType::Time => "chrono::NaiveTime",
            ColumnType::Binary => "Vec<u8>",
            ColumnType::LargeBinary => "Vec<u8>",
            ColumnType::List => "Vec<serde_json::Value>",
            ColumnType::Other => "serde_json::Value",
        };
        String::from_str(name)
    }

    /// Snake case turned to camel case, exactly as [`camel`] says.
    pub fn to_camel_case(s: &str) -> (r: String)
        ensures
            r@ == camel(s@, true),
    {
        let chars = crate::text::str_to_chars(s);
        let mut out = String::new();
        let mut capitalize = true;
        let mut i: usize = 0;
        proof {
            assert(chars@.skip(0) =~= chars@);
        }
        while i < chars.len()
            invariant
                i <= chars@.len(),
                chars@ == s@,
                camel(s@, true) == out@ + camel(chars@.skip(i as int), capitalize),
            decreases chars@.len() - i,
        {
            let ghost prev = out@;
            let ghost prev_cap = capitalize;
            proof {
                assert(chars@.skip(i as int)[0] == chars@[i as int]);
                assert(chars@.skip(i as int).drop_first() =~= chars@.skip(i + 1));
            }
            let c = chars[i];
            if c == '_' {
                capitalize = true;
                proof {
                    assert(camel(chars@.skip(i as int), prev_cap) == camel(
                        chars@.skip(i + 1),
                        true,
                    ));
                }
            } else if capitalize {
                let up = upper_char_x(c);
                let mut single: Vec<char> = Vec::new();
                single.push(up);
                out = out.concat(crate::text::chars_to_string(&single).as_str());
                capitalize = false;
                proof {
                    assert(camel(chars@.skip(i as int), prev_cap) =~= seq![up] + camel(
                        chars@.skip(i + 1),
                        false,
                    ));
                    assert(prev + camel(chars@.skip(i as int), prev_cap) =~= out@ + camel(
                        chars@.skip(i + 1),
                        false,
                    ));
                }
            } else {
                let mut single: Vec<char> = Vec::new();
                single.push(c);
                out = out.concat(crate::text::chars_to_string(&single).as_str());
                proof {
                    assert(camel(chars@.skip(i as int), prev_cap) =~= seq![c] + camel(
                        chars@.skip(i + 1),
                        false,
                    ));
                    assert(prev + camel(chars@.skip(i as int), prev_cap) =~= out@ + camel(
                        chars@.skip(i + 1),
                        false,
                    ));
                }
            }
            i = i + 1;
        }
        proof {
            assert(chars@.skip(chars@.len() as int) =~= Seq::<char>::empty());
            assert(out@ + camel(chars@.skip(chars@.len() as int), capitalize) =~= out@);
        }
        out
    }
}

} // verus!
