//! The structural JSON model of the wire format.
//!
//! Source readers and sink writers exchange newline-delimited JSON objects;
//! each object is one row. Field names match the stream schema's columns;
//! unknown fields are ignored; a missing non-null field is a row-level
//! `Sql` error. The byte-level encoding and decoding is the I/O layer's
//! job; this module fixes what an object means as a row.

use vstd::prelude::*;

use crate::error::SpringError;
use crate::row::FieldModel;
use crate::row::Row;
use crate::row::RowField;
use crate::row::row_conforms;
use crate::row::value_matches_column;
use crate::stream_model::ColModel;
use crate::stream_model::SqlType;
use crate::stream_model::StreamModel;
use crate::stream_model::shape_wf;
use crate::value::SpringTimestamp;
use crate::value::SqlValue;
use crate::value::ValModel;
use crate::value::check_timestamp_text;
use crate::value::timestamp_shape;

verus! {

/// Mathematical model of a [`JsonValue`].
pub enum JsonValueModel {
    Null,
    Int { v: int },
    Text { s: Seq<char> },
    Bool { b: bool },
}

/// A JSON scalar, as a row field carries it.
#[derive(Debug)]
pub enum JsonValue {
    Null,
    Integer { v: i64 },
    Text { s: String },
    Boolean { b: bool },
}

impl View for JsonValue {
    type V = JsonValueModel;

    open spec fn view(&self) -> JsonValueModel {
        match *self {
            JsonValue::Null => JsonValueModel::Null,
            JsonValue::Integer { v } => JsonValueModel::Int { v: v as int },
            JsonValue::Text { s } => JsonValueModel::Text { s: s@ },
            JsonValue::Boolean { b } => JsonValueModel::Bool { b },
        }
    }
}

impl Clone for JsonValue {
    fn clone(&self) -> (r: Self)
        ensures
            r == *self,
    {
        match self {
            JsonValue::Null => JsonValue::Null,
            JsonValue::Integer { v } => JsonValue::Integer { v: *v },
            JsonValue::Text { s } => JsonValue::Text { s: s.clone() },
            JsonValue::Boolean { b } => JsonValue::Boolean { b: *b },
        }
    }
}

/// Mathematical model of a [`JsonField`].
pub struct JsonFieldModel {
    pub name: Seq<char>,
    pub value: JsonValueModel,
}

/// One named member of a JSON object.
#[derive(Debug)]
pub struct JsonField {
    pub name: String,
    pub value: JsonValue,
}

impl View for JsonField {
    type V = JsonFieldModel;

    open spec fn view(&self) -> JsonFieldModel {
        JsonFieldModel { name: self.name@, value: self.value@ }
    }
}

impl Clone for JsonField {
    fn clone(&self) -> (r: Self)
        ensures
            r == *self,
    {
        JsonField { name: self.name.clone(), value: self.value.clone() }
    }
}

/// A JSON object: an ordered list of named members.
#[derive(Debug)]
pub struct JsonObject {
    pub fields: Vec<JsonField>,
}

impl View for JsonObject {
    type V = Seq<JsonFieldModel>;

    open spec fn view(&self) -> Seq<JsonFieldModel> {
        self.fields@.map_values(|f: JsonField| f@)
    }
}

impl JsonObject {
    pub fn new(fields: Vec<JsonField>) -> (r: Self)
        ensures
            r@ == fields@.map_values(|f: JsonField| f@),
    {
        JsonObject { fields }
    }
}

impl Clone for JsonObject {
    fn clone(&self) -> (r: Self)
        ensures
            r@ == self@,
    {
        let mut fields: Vec<JsonField> = Vec::new();
        let mut i: usize = 0;
        while i < self.fields.len()
            invariant
                i <= self.fields.len(),
                fields@ =~= self.fields@.subrange(0, i as int),
            decreases self.fields.len() - i,
        {
            fields.push(self.fields[i].clone());
            i += 1;
        }
        proof {
            assert(fields@ =~= self.fields@);
        }
        JsonObject { fields }
    }
}

/// The value of the first member named `name`, if any.
pub open spec fn json_lookup(fields: Seq<JsonFieldModel>, name: Seq<char>) -> Option<JsonValueModel>
    decreases fields.len(),
{
    if fields.len() == 0 {
        Option::None
    } else if fields[0].name == name {
        Option::Some(fields[0].value)
    } else {
        json_lookup(fields.drop_first(), name)
    }
}

/// The row value column `c` takes from the member value `v` (or from a
/// missing member, `None`): a missing or null member stands for NULL in a
/// nullable column; an integer fills an INTEGER column; a text fills a TEXT
/// column, or a TIMESTAMP column when it has the canonical timestamp shape.
/// Anything else does not convert.
pub open spec fn spec_member_to_value(v: Option<JsonValueModel>, c: ColModel) -> Option<ValModel> {
    match v {
        Option::None => if c.nullable {
            Option::Some(ValModel::Null)
        } else {
            Option::None
        },
        Option::Some(jv) => match jv {
            JsonValueModel::Null => if c.nullable {
                Option::Some(ValModel::Null)
            } else {
                Option::None
            },
            JsonValueModel::Int { v } => if c.sql_type == SqlType::Integer {
                Option::Some(ValModel::Int { v })
            } else {
                Option::None
            },
            JsonValueModel::Text { s } => if c.sql_type == SqlType::Text {
                Option::Some(ValModel::Text { s })
            } else if c.sql_type == SqlType::Timestamp && timestamp_shape(s) {
                Option::Some(ValModel::Ts { t: s })
            } else {
                Option::None
            },
            JsonValueModel::Bool { .. } => Option::None,
        },
    }
}

/// The row a JSON object means under a schema: one value per column, by
/// name, in schema order; nothing as soon as one column cannot be filled.
pub open spec fn spec_into_row(obj: Seq<JsonFieldModel>, cols: Seq<ColModel>) -> Option<
    Seq<FieldModel>,
>
    decreases cols.len(),
{
    if cols.len() == 0 {
        Option::Some(Seq::<FieldModel>::empty())
    } else {
        match spec_member_to_value(json_lookup(obj, cols[0].name), cols[0]) {
            Option::Some(v) => match spec_into_row(obj, cols.drop_first()) {
                Option::Some(rest) => Option::Some(
                    seq![FieldModel { name: cols[0].name, value: v }] + rest,
                ),
                Option::None => Option::None,
            },
            Option::None => Option::None,
        }
    }
}

/// The canonical JSON encoding of a row: one member per field, in field
/// order; a timestamp encodes as its canonical text.
pub open spec fn spec_row_to_json(fields: Seq<FieldModel>) -> Seq<JsonFieldModel> {
    fields.map_values(
        |f: FieldModel|
            JsonFieldModel {
                name: f.name,
                value: match f.value {
                    ValModel::Null => JsonValueModel::Null,
                    ValModel::Int { v } => JsonValueModel::Int { v },
                    ValModel::Text { s } => JsonValueModel::Text { s },
                    ValModel::Ts { t } => JsonValueModel::Text { s: t },
                },
            },
    )
}

/// The value of the first member named `name`, if any.
fn lookup_member(obj: &JsonObject, name: &str) -> (r: Option<JsonValue>)
    ensures
        match r {
            Some(v) => json_lookup(obj@, name@) == Option::Some(v@),
            None => json_lookup(obj@, name@) is None,
        },
{
    let ghost all = obj@;
    proof {
        assert(all.skip(0) =~= all);
    }
    let mut i: usize = 0;
    while i < obj.fields.len()
        invariant
            i <= obj.fields@.len(),
            all == obj@,
            json_lookup(all, name@) == json_lookup(all.skip(i as int), name@),
        decreases obj.fields.len() - i,
    {
        proof {
            assert(all.skip(i as int)[0] == all[i as int]);
            assert(all.skip(i as int).drop_first() =~= all.skip(i + 1));
        }
        if crate::text::str_eq(obj.fields[i].name.as_str(), name) {
            return Some(obj.fields[i].value.clone());
        }
        i += 1;
    }
    proof {
        assert(all.skip(all.len() as int) =~= Seq::<JsonFieldModel>::empty());
    }
    None
}

/// Reads the row a JSON object carries under stream `stream`'s schema.
///
/// Unknown members are ignored; members bind to columns by name.
///
/// # Failures
///
/// - `SpringError::Sql` when a non-null column has no usable member: the
///   member is missing or null, or its value has the wrong type, or a
///   timestamp text is not in the canonical shape.
pub fn into_row(obj: &JsonObject, stream: &StreamModel) -> (r: Result<Row, SpringError>)
    ensures
        match r {
            Ok(row) => spec_into_row(obj@, stream@.columns) == Option::Some(row@),
            Err(e) => spec_into_row(obj@, stream@.columns) is None && e
                matches SpringError::Sql { .. },
        },
{
    let ghost cols = stream@.columns;
    proof {
        assert(cols.skip(0) =~= cols);
    }
    let mut fields: Vec<RowField> = Vec::new();
    let mut i: usize = 0;
    while i < stream.columns.len()
        invariant
            i <= stream.columns@.len(),
            cols == stream@.columns,
            cols.len() == stream.columns@.len(),
            spec_into_row(obj@, cols) matches Option::Some(full) ==> spec_into_row(
                obj@,
                cols.skip(i as int),
            ) matches Option::Some(rest) && full == fields@.map_values(|f: RowField| f@) + rest,
            spec_into_row(obj@, cols) is None ==> spec_into_row(obj@, cols.skip(i as int)) is None,
        decreases stream.columns.len() - i,
    {
        proof {
            assert(cols.skip(i as int)[0] == cols[i as int]);
            assert(cols.skip(i as int).drop_first() =~= cols.skip(i + 1));
            assert(cols[i as int] == stream.columns@[i as int]@);
        }
        let col = &stream.columns[i];
        let member = lookup_member(obj, col.column.as_string().as_str());
        let value: SqlValue = match member {
            Option::None => {
                if col.nullable {
                    SqlValue::Null
                } else {
                    proof {
                        assert(spec_member_to_value(json_lookup(obj@, cols[i as int].name), cols[i as int]) is None);
                        assert(spec_into_row(obj@, cols.skip(i as int)) is None);
                    }
                    return Err(
                        SpringError::Sql { msg: "missing member for a non-null column".to_owned() },
                    );
                }
            },
            Option::Some(jv) => match jv {
                JsonValue::Null => {
                    if col.nullable {
                        SqlValue::Null
                    } else {
                        proof {
                            assert(spec_member_to_value(json_lookup(obj@, cols[i as int].name), cols[i as int]) is None);
                            assert(spec_into_row(obj@, cols.skip(i as int)) is None);
                        }
                        return Err(
                            SpringError::Sql {
                                msg: "null member for a non-null column".to_owned(),
                            },
                        );
                    }
                },
                JsonValue::Integer { v } => {
                    if matches!(col.sql_type, SqlType::Integer) {
                        SqlValue::Integer { v }
                    } else {
                        proof {
                            assert(spec_member_to_value(json_lookup(obj@, cols[i as int].name), cols[i as int]) is None);
                            assert(spec_into_row(obj@, cols.skip(i as int)) is None);
                        }
                        return Err(
                            SpringError::Sql { msg: "integer member for a non-integer column".to_owned() },
                        );
                    }
                },
                JsonValue::Text { s } => {
                    match col.sql_type {
                        SqlType::Text => SqlValue::Text { s },
                        SqlType::Timestamp => {
                            if check_timestamp_text(s.as_str()) {
                                SqlValue::Timestamp { t: SpringTimestamp { repr: s } }
                            } else {
                                proof {
                                    assert(spec_member_to_value(json_lookup(obj@, cols[i as int].name), cols[i as int]) is None);
                                    assert(spec_into_row(obj@, cols.skip(i as int)) is None);
                                }
                                return Err(
                                    SpringError::Sql {
                                        msg: "text member is not a timestamp".to_owned(),
                                    },
                                );
                            }
                        },
                        SqlType::Integer => {
                            proof {
                                assert(spec_member_to_value(json_lookup(obj@, cols[i as int].name), cols[i as int]) is None);
                                assert(spec_into_row(obj@, cols.skip(i as int)) is None);
                            }
                            return Err(
                                SpringError::Sql {
                                    msg: "text member for an integer column".to_owned(),
                                },
                            );
                        },
                    }
                },
                JsonValue::Boolean { .. } => {
                    proof {
                        assert(spec_member_to_value(json_lookup(obj@, cols[i as int].name), cols[i as int]) is None);
                        assert(spec_into_row(obj@, cols.skip(i as int)) is None);
                    }
                    return Err(
                        SpringError::Sql { msg: "boolean member has no column type".to_owned() },
                    );
                },
            },
        };
        let ghost prev = fields@;
        fields.push(RowField { name: col.column.clone(), value });
        proof {
            assert(fields@.map_values(|f: RowField| f@) =~= prev.map_values(|f: RowField| f@).push(
                FieldModel {
                    name: cols[i as int].name,
                    value: spec_member_to_value(
                        json_lookup(obj@, cols[i as int].name),
                        cols[i as int],
                    )->Some_0,
                },
            ));
            if spec_into_row(obj@, cols) is Some {
                let full = spec_into_row(obj@, cols)->Some_0;
                let rest = spec_into_row(obj@, cols.skip(i as int))->Some_0;
                let rest2 = spec_into_row(obj@, cols.skip(i + 1))->Some_0;
                assert(prev.map_values(|f: RowField| f@) + rest =~= fields@.map_values(
                    |f: RowField| f@,
                ) + rest2);
            }
        }
        i += 1;
    }
    proof {
        assert(cols.skip(cols.len() as int) =~= Seq::<ColModel>::empty());
        if spec_into_row(obj@, cols) is Some {
            assert(spec_into_row(obj@, cols)->Some_0 =~= fields@.map_values(|f: RowField| f@));
        }
    }
    Ok(Row { fields })
}

/// Encodes a row as its canonical JSON object: one member per field, in
/// field (schema) order.
pub fn row_to_json(row: &Row) -> (r: JsonObject)
    ensures
        r@ == spec_row_to_json(row@),
{
    let mut fields: Vec<JsonField> = Vec::new();
    let mut i: usize = 0;
    while i < row.fields.len()
        invariant
            i <= row.fields@.len(),
            fields@.map_values(|f: JsonField| f@) =~= spec_row_to_json(
                row@.subrange(0, i as int),
            ),
        decreases row.fields.len() - i,
    {
        let f = &row.fields[i];
        let value: JsonValue = match &f.value {
            SqlValue::Null => JsonValue::Null,
            SqlValue::Integer { v } => JsonValue::Integer { v: *v },
            SqlValue::Text { s } => JsonValue::Text { s: s.clone() },
            SqlValue::Timestamp { t } => JsonValue::Text { s: t.repr.clone() },
        };
        let ghost prev = fields@;
        fields.push(JsonField { name: f.name.as_string().clone(), value });
        proof {
            assert(row@.subrange(0, i + 1) =~= row@.subrange(0, i as int).push(row@[i as int]));
            assert(fields@.map_values(|f2: JsonField| f2@) =~= spec_row_to_json(
                row@.subrange(0, i as int),
            ).push(fields@[fields@.len() - 1]@));
            assert(spec_row_to_json(row@.subrange(0, i + 1)) =~= spec_row_to_json(
                row@.subrange(0, i as int),
            ).push(spec_row_to_json(row@)[i as int]));
        }
        i += 1;
    }
    proof {
        assert(row@.subrange(0, row@.len() as int) =~= row@);
    }
    JsonObject { fields }
}

proof fn lemma_lookup_unique_names(fields: Seq<JsonFieldModel>, i: int)
    requires
        0 <= i < fields.len(),
        forall|a: int, b: int| 0 <= a < b < fields.len() ==> fields[a].name != fields[b].name,
    ensures
        json_lookup(fields, fields[i].name) == Option::Some(fields[i].value),
    decreases i,
{
    if i > 0 {
        assert(fields[0].name != fields[i].name);
        let t = fields.drop_first();
        assert(t[i - 1] == fields[i]);
        assert forall|a: int, b: int| 0 <= a < b < t.len() implies t[a].name != t[b].name by {
            assert(t[a] == fields[a + 1]);
            assert(t[b] == fields[b + 1]);
        }
        lemma_lookup_unique_names(t, i - 1);
    }
}

proof fn lemma_into_row_pointwise(
    obj: Seq<JsonFieldModel>,
    cols: Seq<ColModel>,
    expected: Seq<FieldModel>,
)
    requires
        expected.len() == cols.len(),
        forall|i: int|
            0 <= i < cols.len() ==> spec_member_to_value(
                json_lookup(obj, cols[i].name),
                #[trigger] cols[i],
            ) == Option::Some(expected[i].value) && expected[i].name == cols[i].name,
    ensures
        spec_into_row(obj, cols) == Option::Some(expected),
    decreases cols.len(),
{
    if cols.len() == 0 {
        assert(expected =~= Seq::<FieldModel>::empty());
    } else {
        let tc = cols.drop_first();
        let te = expected.drop_first();
        assert forall|i: int| 0 <= i < tc.len() implies spec_member_to_value(
            json_lookup(obj, tc[i].name),
            #[trigger] tc[i],
        ) == Option::Some(te[i].value) && te[i].name == tc[i].name by {
            assert(tc[i] == cols[i + 1]);
            assert(te[i] == expected[i + 1]);
        }
        lemma_into_row_pointwise(obj, tc, te);
        assert(seq![FieldModel { name: cols[0].name, value: expected[0].value }] + te
            =~= expected);
    }
}

/// Law (round trip): a row that conforms to a well-formed schema, encoded
/// as its canonical JSON object and read back under the same schema, is
/// returned unchanged. The sink's encoding of a passthrough pump's output
/// therefore matches the source row, with members in schema order.
pub proof fn lemma_json_round_trip(fields: Seq<FieldModel>, cols: Seq<ColModel>)
    requires
        shape_wf(
            crate::stream_model::StreamShape { name: Seq::<char>::empty(), columns: cols },
        ),
        row_conforms(fields, cols),
    ensures
        spec_into_row(spec_row_to_json(fields), cols) == Option::Some(fields),
{
    let obj = spec_row_to_json(fields);
    assert forall|i: int| 0 <= i < cols.len() implies spec_member_to_value(
        json_lookup(obj, cols[i].name),
        #[trigger] cols[i],
    ) == Option::Some(fields[i].value) && fields[i].name == cols[i].name by {
        assert(fields[i].name == cols[i].name && value_matches_column(fields[i].value, cols[i]));
        assert forall|a: int, b: int| 0 <= a < b < obj.len() implies obj[a].name != obj[b].name by {
            assert(obj[a].name == fields[a].name && fields[a].name == cols[a].name);
            assert(obj[b].name == fields[b].name && fields[b].name == cols[b].name);
        }
        assert(obj[i].name == cols[i].name);
        lemma_lookup_unique_names(obj, i);
        assert(json_lookup(obj, cols[i].name) == Option::Some(obj[i].value));
        match fields[i].value {
            ValModel::Null => {
                assert(cols[i].nullable);
            },
            ValModel::Int { v } => {
                assert(obj[i].value == (JsonValueModel::Int { v }));
            },
            ValModel::Text { s } => {
                assert(obj[i].value == (JsonValueModel::Text { s }));
                assert(cols[i].sql_type == SqlType::Text);
            },
            ValModel::Ts { t } => {
                assert(obj[i].value == (JsonValueModel::Text { s: t }));
                assert(cols[i].sql_type == SqlType::Timestamp && timestamp_shape(t));
            },
        }
    }
    lemma_into_row_pointwise(obj, cols, fields);
}

/// Law (column order of the wire format is immaterial): two objects whose
/// first member agrees on every column name mean the same row under the
/// schema — reading binds members by name, never by position.
pub proof fn lemma_into_row_ignores_member_order(
    obj1: Seq<JsonFieldModel>,
    obj2: Seq<JsonFieldModel>,
    cols: Seq<ColModel>,
)
    requires
        forall|i: int|
            0 <= i < cols.len() ==> json_lookup(obj1, #[trigger] cols[i].name) == json_lookup(
                obj2,
                cols[i].name,
            ),
    ensures
        spec_into_row(obj1, cols) == spec_into_row(obj2, cols),
    decreases cols.len(),
{
    if cols.len() > 0 {
        let tc = cols.drop_first();
        assert forall|i: int| 0 <= i < tc.len() implies json_lookup(obj1, #[trigger] tc[i].name)
            == json_lookup(obj2, tc[i].name) by {
            assert(tc[i] == cols[i + 1]);
        }
        lemma_into_row_ignores_member_order(obj1, obj2, tc);
        assert(json_lookup(obj1, cols[0].name) == json_lookup(obj2, cols[0].name));
    }
}

} // verus!
