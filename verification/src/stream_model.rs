//! Stream schemas: named, ordered lists of typed columns.

use vstd::prelude::*;

use crate::name::ColumnName;
use crate::name::StreamName;

verus! {

/// SQL type of a column.
#[derive(Clone, Copy, PartialEq, Eq, Structural, Debug)]
pub enum SqlType {
    Timestamp,
    Integer,
    Text,
}

/// Mathematical model of a [`ColumnDef`].
pub struct ColModel {
    pub name: Seq<char>,
    pub sql_type: SqlType,
    pub nullable: bool,
    pub is_rowtime: bool,
}

/// One column of a stream schema.
#[derive(Debug)]
pub struct ColumnDef {
    pub column: ColumnName,
    pub sql_type: SqlType,
    pub nullable: bool,
    pub is_rowtime: bool,
}

impl View for ColumnDef {
    type V = ColModel;

    open spec fn view(&self) -> ColModel {
        ColModel {
            name: self.column@,
            sql_type: self.sql_type,
            nullable: self.nullable,
            is_rowtime: self.is_rowtime,
        }
    }
}

impl ColumnDef {
    pub fn new(column: ColumnName, sql_type: SqlType, nullable: bool, is_rowtime: bool) -> (r:
        Self)
        ensures
            r@ == (ColModel { name: column@, sql_type, nullable, is_rowtime }),
    {
        ColumnDef { column, sql_type, nullable, is_rowtime }
    }
}

impl Clone for ColumnDef {
    fn clone(&self) -> (r: Self)
        ensures
            r == *self,
    {
        ColumnDef {
            column: self.column.clone(),
            sql_type: self.sql_type,
            nullable: self.nullable,
            is_rowtime: self.is_rowtime,
        }
    }
}

/// Model of a stream schema: its name and its columns, in declaration order.
pub struct StreamShape {
    pub name: Seq<char>,
    pub columns: Seq<ColModel>,
}

/// A named stream schema.
#[derive(Debug)]
pub struct StreamModel {
    pub name: StreamName,
    pub columns: Vec<ColumnDef>,
}

impl View for StreamModel {
    type V = StreamShape;

    open spec fn view(&self) -> StreamShape {
        StreamShape { name: self.name@, columns: self.columns@.map_values(|c: ColumnDef| c@) }
    }
}

/// Well-formedness of a schema: column names are unique, at most one column
/// is the rowtime, and a rowtime column is a non-nullable TIMESTAMP.
pub open spec fn shape_wf(shape: StreamShape) -> bool {
    &&& forall|i: int, j: int|
        0 <= i < j < shape.columns.len() ==> shape.columns[i].name != shape.columns[j].name
    &&& forall|i: int, j: int|
        0 <= i < j < shape.columns.len() ==> !(shape.columns[i].is_rowtime
            && shape.columns[j].is_rowtime)
    &&& forall|i: int|
        0 <= i < shape.columns.len() && shape.columns[i].is_rowtime
            ==> shape.columns[i].sql_type == SqlType::Timestamp && !shape.columns[i].nullable
}

impl StreamModel {
    pub open spec fn wf(&self) -> bool {
        shape_wf(self@)
    }

    pub fn new(name: StreamName, columns: Vec<ColumnDef>) -> (r: Self)
        ensures
            r@.name == name@,
            r@.columns == columns@.map_values(|c: ColumnDef| c@),
    {
        StreamModel { name, columns }
    }

    pub fn name(&self) -> (r: &StreamName)
        ensures
            r@ == self@.name,
    {
        &self.name
    }

    pub fn columns(&self) -> (r: &Vec<ColumnDef>)
        ensures
            r@.map_values(|c: ColumnDef| c@) == self@.columns,
    {
        &self.columns
    }
}

impl Clone for StreamModel {
    fn clone(&self) -> (r: Self)
        ensures
            r@ == self@,
    {
        let mut columns: Vec<ColumnDef> = Vec::new();
        let mut i: usize = 0;
        while i < self.columns.len()
            invariant
                i <= self.columns.len(),
                columns@ =~= self.columns@.subrange(0, i as int),
            decreases self.columns.len() - i,
        {
            columns.push(self.columns[i].clone());
            i += 1;
        }
        assert(columns@ =~= self.columns@);
        StreamModel { name: self.name.clone(), columns }
    }
}

} // verus!
