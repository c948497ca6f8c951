//! The pipeline's view of the external query engine: the registered table
//! names and the data location, plus the fixture rows used when no engine is
//! wired. The engine itself — SQL in, row batches out — is an external
//! collaborator driven by the surrounding program.

use vstd::prelude::*;
use vstd::string::*;
use crate::models::Record;

verus! {

/// The engine handle's bookkeeping: which tables are registered, and from
/// which path their data is loaded.
pub struct DataFusionContext {
    pub table_names: Vec<String>,
    pub data_path: String,
}

impl DataFusionContext {
    /// A context over the standard tables of the sample dataset, to be
    /// loaded from the given path.
    pub fn new(data_path: &str) -> (r: DataFusionContext)
        ensures
            r.data_path@ == data_path@,
            r.table_names@.len() == 8,
            r.table_names@[0]@ == "customer"@,
            r.table_names@[1]@ == "orders"@,
            r.table_names@[2]@ == "lineitem"@,
            r.table_names@[3]@ == "part"@,
            r.table_names@[4]@ == "supplier"@,
            r.table_names@[5]@ == "nation"@,
            r.table_names@[6]@ == "region"@,
            r.table_names@[7]@ == "partsupp"@,
    {
        let mut table_names: Vec<String> = Vec::new();
        table_names.push(String::from_str("customer"));
        table_names.push(String::from_str("orders"));
        table_names.push(String::from_str("lineitem"));
        table_names.push(String::from_str("part"));
        table_names.push(String::from_str("supplier"));
        table_names.push(String::from_str("nation"));
        table_names.push(String::from_str("region"));
        table_names.push(String::from_str("partsupp"));
        DataFusionContext { table_names, data_path: String::from_str(data_path) }
    }

    /// The registered table names, in registration order.
    pub fn get_table_names(&self) -> (r: &Vec<String>)
        ensures
            r@ == self.table_names@,
    {
        &self.table_names
    }

    /// The path the tables are loaded from.
    pub fn get_data_path(&self) -> (r: &str)
        ensures
            r@ == self.data_path@,
    {
        self.data_path.as_str()
    }
}

/// The fixture rows that stand in for the engine when none is wired.
pub fn sample_records() -> (r: Vec<Record>)
    ensures
        r@.len() == 3,
        r@[0].id == 1 && r@[0].name@ == "Sample 1"@ && r@[0].value == 100,
        r@[1].id == 2 && r@[1].name@ == "Sample 2"@ && r@[1].value == 200,
        r@[2].id == 3 && r@[2].name@ == "Sample 3"@ && r@[2].value == 150,
{
    let mut records: Vec<Record> = Vec::new();
    records.push(Record { id: 1, name: String::from_str("Sample 1"), value: 100 });
    records.push(Record { id: 2, name: String::from_str("Sample 2"), value: 200 });
    records.push(Record { id: 3, name: String::from_str("Sample 3"), value: 150 });
    records
}

} // verus!
