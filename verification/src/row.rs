//! Rows: immutable ordered tuples of named, typed values.
//!
//! A row conforms to a stream schema when its fields carry the schema's
//! column names in order and each value matches its column's type. Rows are
//! reference-shared among downstream consumers: a "preserved" row reuses the
//! shared reference, a "newly created" row is a distinct owned instance.

use std::sync::Arc;
use vstd::prelude::*;

use crate::name::ColumnName;
use crate::stream_model::ColModel;
use crate::stream_model::SqlType;
use crate::value::SqlValue;
use crate::value::ValModel;
use crate::value::timestamp_shape;

verus! {

/// Mathematical model of a [`RowField`].
pub struct FieldModel {
    pub name: Seq<char>,
    pub value: ValModel,
}

/// One named value of a row.
#[derive(Debug)]
pub struct RowField {
    pub name: ColumnName,
    pub value: SqlValue,
}

impl View for RowField {
    type V = FieldModel;

    open spec fn view(&self) -> FieldModel {
        FieldModel { name: self.name@, value: self.value@ }
    }
}

impl RowField {
    pub fn new(name: ColumnName, value: SqlValue) -> (r: Self)
        ensures
            r@ == (FieldModel { name: name@, value: value@ }),
    {
        RowField { name, value }
    }
}

impl Clone for RowField {
    fn clone(&self) -> (r: Self)
        ensures
            r == *self,
    {
        RowField { name: self.name.clone(), value: self.value.clone() }
    }
}

/// True when value `v` may stand in column `c`.
pub open spec fn value_matches_column(v: ValModel, c: ColModel) -> bool {
    match v {
        ValModel::Null => c.nullable,
        ValModel::Int { .. } => c.sql_type == SqlType::Integer,
        ValModel::Text { .. } => c.sql_type == SqlType::Text,
        ValModel::Ts { t } => c.sql_type == SqlType::Timestamp && timestamp_shape(t),
    }
}

/// True when the fields carry the columns' names in order, with matching values.
pub open spec fn row_conforms(fields: Seq<FieldModel>, cols: Seq<ColModel>) -> bool {
    &&& fields.len() == cols.len()
    &&& forall|i: int|
        0 <= i < cols.len() ==> #[trigger] fields[i].name == cols[i].name
            && value_matches_column(fields[i].value, cols[i])
}

/// An immutable ordered tuple of named, typed values.
#[derive(Debug)]
pub struct Row {
    pub fields: Vec<RowField>,
}

impl View for Row {
    type V = Seq<FieldModel>;

    open spec fn view(&self) -> Seq<FieldModel> {
        self.fields@.map_values(|f: RowField| f@)
    }
}

impl Row {
    pub fn new(fields: Vec<RowField>) -> (r: Self)
        ensures
            r@ == fields@.map_values(|f: RowField| f@),
    {
        Row { fields }
    }

    pub fn len(&self) -> (r: usize)
        ensures
            r == self@.len(),
    {
        self.fields.len()
    }

    pub fn field_at(&self, i: usize) -> (r: &RowField)
        requires
            i < self@.len(),
        ensures
            r@ == self@[i as int],
    {
        &self.fields[i]
    }

    /// Index of the first field named `name`, if any.
    pub fn find_field(&self, name: &ColumnName) -> (r: Option<usize>)
        ensures
            match r {
                Some(i) => i < self@.len() && self@[i as int].name == name@ && (forall|j: int|
                    0 <= j < i ==> #[trigger] self@[j].name != name@),
                None => forall|j: int| 0 <= j < self@.len() ==> #[trigger] self@[j].name != name@,
            },
    {
        let mut i: usize = 0;
        while i < self.fields.len()
            invariant
                i <= self@.len(),
                self@.len() == self.fields@.len(),
                forall|j: int| 0 <= j < i ==> #[trigger] self@[j].name != name@,
            decreases self.fields.len() - i,
        {
            if self.fields[i].name.eq_name(name) {
                return Some(i);
            }
            i += 1;
        }
        None
    }

    pub fn eq_row(&self, other: &Self) -> (r: bool)
        ensures
            r == (self@ == other@),
    {
        if self.fields.len() != other.fields.len() {
            assert(self@.len() != other@.len());
            return false;
        }
        let mut i: usize = 0;
        while i < self.fields.len()
            invariant
                i <= self.fields@.len(),
                self.fields@.len() == other.fields@.len(),
                forall|j: int| 0 <= j < i ==> #[trigger] self@[j] == other@[j],
            decreases self.fields.len() - i,
        {
            let a = &self.fields[i];
            let b = &other.fields[i];
            if !(a.name.eq_name(&b.name) && a.value.eq_value(&b.value)) {
                assert(self@[i as int] != other@[i as int]);
                return false;
            }
            assert(self@[i as int] == other@[i as int]);
            i += 1;
        }
        assert(self@ =~= other@);
        true
    }
}

impl Clone for Row {
    fn clone(&self) -> (r: Self)
        ensures
            r@ == self@,
    {
        let mut fields: Vec<RowField> = Vec::new();
        let mut i: usize = 0;
        while i < self.fields.len()
            invariant
                i <= self.fields.len(),
                fields@ =~= self.fields@.subrange(0, i as int),
            decreases self.fields.len() - i,
        {
            fields.push(self.fields[i].clone());
            i += 1;
        }
        assert(fields@ =~= self.fields@);
        Row { fields }
    }
}

impl PartialEq for Row {
    fn eq(&self, other: &Self) -> (r: bool) {
        self.eq_row(other)
    }
}

impl vstd::std_specs::cmp::PartialEqSpecImpl for Row {
    open spec fn obeys_eq_spec() -> bool {
        true
    }

    open spec fn eq_spec(&self, other: &Self) -> bool {
        self@ == other@
    }
}

/// Intermediate row of a query step that the operation handed on unchanged:
/// it shares the reference of its input.
#[derive(Debug)]
pub struct PreservedRow {
    pub row: Arc<Row>,
}

impl View for PreservedRow {
    type V = Seq<FieldModel>;

    open spec fn view(&self) -> Seq<FieldModel> {
        self.row@
    }
}

impl PreservedRow {
    pub fn new(row: Arc<Row>) -> (r: Self)
        ensures
            r@ == row@,
    {
        PreservedRow { row }
    }

    /// The shared row behind the reference.
    pub fn as_ref(&self) -> (r: &Row)
        ensures
            r@ == self@,
    {
        &self.row
    }
}

/// Intermediate row that a query operation newly created: a distinct owned
/// instance, not shared with the operation's input.
#[derive(Debug)]
pub struct NewRow {
    pub row: Row,
}

impl View for NewRow {
    type V = Seq<FieldModel>;

    open spec fn view(&self) -> Seq<FieldModel> {
        self.row@
    }
}

impl NewRow {
    pub fn new(row: Row) -> (r: Self)
        ensures
            r@ == row@,
    {
        NewRow { row }
    }
}

impl From<NewRow> for Row {
    fn from(n: NewRow) -> (r: Row) {
        n.row
    }
}

impl vstd::std_specs::convert::FromSpecImpl<NewRow> for Row {
    open spec fn obeys_from_spec() -> bool {
        true
    }

    open spec fn from_spec(n: NewRow) -> Row {
        n.row
    }
}

/// The output of a whole query plan over one input row.
#[allow(inconsistent_fields)]
pub enum FinalRow {
    /// The same row as the query plan's input, by shared reference.
    Preserved { row: Arc<Row> },
    /// A row newly created during query plan execution.
    NewlyCreated { row: Row },
}

impl View for FinalRow {
    type V = Seq<FieldModel>;

    open spec fn view(&self) -> Seq<FieldModel> {
        match *self {
            FinalRow::Preserved { row } => row@,
            FinalRow::NewlyCreated { row } => row@,
        }
    }
}

} // verus!
