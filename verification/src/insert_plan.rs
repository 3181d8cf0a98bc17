//! The insertion half of a pump's command: which stream it writes, and
//! into which columns.

use vstd::prelude::*;

use crate::name::ColumnName;
use crate::name::StreamName;

verus! {

/// Mathematical model of an [`InsertPlan`].
pub struct InsertPlanModel {
    pub stream: Seq<char>,
    pub insert_columns: Seq<Seq<char>>,
}

/// Where a pump inserts its output rows.
pub struct InsertPlan {
    pub stream: StreamName,
    pub insert_columns: Vec<ColumnName>,
}

impl View for InsertPlan {
    type V = InsertPlanModel;

    open spec fn view(&self) -> InsertPlanModel {
        InsertPlanModel {
            stream: self.stream@,
            insert_columns: self.insert_columns@.map_values(|c: ColumnName| c@),
        }
    }
}

impl InsertPlan {
    pub fn new(stream: StreamName, insert_columns: Vec<ColumnName>) -> (r: Self)
        ensures
            r@ == (InsertPlanModel {
                stream: stream@,
                insert_columns: insert_columns@.map_values(|c: ColumnName| c@),
            }),
    {
        InsertPlan { stream, insert_columns }
    }

    /// The stream the pump inserts into.
    pub fn stream(&self) -> (r: &StreamName)
        ensures
            r@ == self@.stream,
    {
        &self.stream
    }
}

} // verus!
