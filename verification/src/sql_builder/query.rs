//! A rendered statement: SQL text plus the arguments it refers to.

use vstd::prelude::*;

use crate::sql_builder::params::Params;
use crate::sql_builder::value::{SqlValue, SqlValueView};

verus! {

/// SQL text plus the arguments it refers to — what every builder in this
/// module turns into, and the only thing that is handed to the database.
#[derive(Debug)]
pub struct Query {
    sql: String,
    params: Params,
}

impl Query {
    pub fn new(sql: String, params: Params) -> (r: Self)
        ensures
            r.sql_text() == sql@,
            r.arguments() == params@,
    {
        Query { sql, params }
    }

    pub closed spec fn sql_text(&self) -> Seq<char> {
        self.sql@
    }

    pub closed spec fn arguments(&self) -> Seq<SqlValueView> {
        self.params@
    }

    /// The statement text.
    pub fn sql(&self) -> (r: &str)
        ensures
            r@ == self.sql_text(),
    {
        self.sql.as_str()
    }

    /// The statement text and its arguments, in bind order.
    pub fn into_parts(self) -> (r: (String, Vec<SqlValue>))
        ensures
            r.0@ == self.sql_text(),
            r.1@.map_values(|v: SqlValue| v@) == self.arguments(),
    {
        let values = self.params.finish();
        (self.sql, values)
    }
}

} // verus!
