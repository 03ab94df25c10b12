//! The column/table metadata introspection query.  The engine only renders
//! the query text; running it and reading its result belong to the caller.

use vstd::prelude::*;

verus! {

/// Builds the two-column introspection query for a table.
#[derive(Debug, Clone)]
pub struct TableColumnsBuilder;

/// The full text of the introspection query for `table`.
pub open spec fn table_columns_text(table: Seq<char>) -> Seq<char> {
    "SELECT column_name, data_type FROM information_schema.columns WHERE table_name = '"@ + table
        + "'"@
}

impl TableColumnsBuilder {
    /// Renders the query that lists the names and data types of the columns
    /// of `table`.
    pub fn build(table: &str) -> (r: String)
        ensures
            r@ == table_columns_text(table@),
    {
        let mut s =
            "SELECT column_name, data_type FROM information_schema.columns WHERE table_name = '".to_owned();
        s.append(table);
        s.append("'");
        s
    }
}

} // verus!
