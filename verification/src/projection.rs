//! The Projection operation of a pump step: materialize a new row holding
//! only the selected columns.

use vstd::prelude::*;

use crate::error::SpringError;
use crate::expression::FieldPointer;
use crate::name::ColumnName;
use crate::row::FieldModel;
use crate::row::NewRow;
use crate::row::Row;
use crate::row::RowField;

verus! {

/// The value of the first field named `attr`, if any.
pub open spec fn field_value(fields: Seq<FieldModel>, attr: Seq<char>) -> Option<
    crate::value::ValModel,
>
    decreases fields.len(),
{
    if fields.len() == 0 {
        Option::None
    } else if fields[0].name == attr {
        Option::Some(fields[0].value)
    } else {
        field_value(fields.drop_first(), attr)
    }
}

/// The projection of a row onto the pointed-at columns, in pointer order;
/// nothing as soon as a pointer resolves to no field.
pub open spec fn spec_project(fields: Seq<FieldModel>, attrs: Seq<Seq<char>>) -> Option<
    Seq<FieldModel>,
>
    decreases attrs.len(),
{
    if attrs.len() == 0 {
        Option::Some(Seq::<FieldModel>::empty())
    } else {
        match field_value(fields, attrs[0]) {
            Option::Some(v) => match spec_project(fields, attrs.drop_first()) {
                Option::Some(rest) => Option::Some(
                    seq![FieldModel { name: attrs[0], value: v }] + rest,
                ),
                Option::None => Option::None,
            },
            Option::None => Option::None,
        }
    }
}

/// Materializes a newly created row holding only the pointed-at columns of
/// `row`, in pointer order.
///
/// # Failures
///
/// - `SpringError::Sql` when a pointer names no column of the row.
pub fn project_row(row: &Row, field_pointers: &Vec<FieldPointer>) -> (r: Result<
    NewRow,
    SpringError,
>)
    ensures
        match r {
            Ok(out) => spec_project(
                row@,
                field_pointers@.map_values(|p: FieldPointer| p@.attr),
            ) == Option::Some(out@),
            Err(e) => spec_project(row@, field_pointers@.map_values(|p: FieldPointer| p@.attr))
                is None && e matches SpringError::Sql { .. },
        },
{
    let ghost attrs = field_pointers@.map_values(|p: FieldPointer| p@.attr);
    proof {
        assert(attrs.skip(0) =~= attrs);
    }
    let mut fields: Vec<RowField> = Vec::new();
    let mut i: usize = 0;
    while i < field_pointers.len()
        invariant
            i <= field_pointers@.len(),
            attrs == field_pointers@.map_values(|p: FieldPointer| p@.attr),
            spec_project(row@, attrs) matches Option::Some(full) ==> spec_project(
                row@,
                attrs.skip(i as int),
            ) matches Option::Some(rest) && full == fields@.map_values(|f: RowField| f@) + rest,
            spec_project(row@, attrs) is None ==> spec_project(row@, attrs.skip(i as int))
                is None,
        decreases field_pointers.len() - i,
    {
        proof {
            assert(attrs.skip(i as int)[0] == attrs[i as int]);
            assert(attrs.skip(i as int).drop_first() =~= attrs.skip(i + 1));
        }
        let attr_name = ColumnName::new(field_pointers[i].attr().clone());
        let fi = match row.find_field(&attr_name) {
            Some(fi) => fi,
            None => {
                proof {
                    lemma_find_none_is_field_value_none(row@, attrs[i as int]);
                    assert(spec_project(row@, attrs.skip(i as int)) is None);
                }
                return Err(
                    SpringError::Sql { msg: "pointer resolves to no column of the row".to_owned() },
                );
            },
        };
        proof {
            lemma_find_first_is_field_value(row@, attrs[i as int], fi as int);
        }
        let value = row.field_at(fi).value.clone();
        let ghost prev = fields@;
        fields.push(RowField { name: attr_name, value });
        proof {
            assert(fields@.map_values(|f: RowField| f@) =~= prev.map_values(
                |f: RowField| f@,
            ).push(FieldModel { name: attrs[i as int], value: row@[fi as int].value }));
            if spec_project(row@, attrs) is Some {
                let rest = spec_project(row@, attrs.skip(i as int))->Some_0;
                let rest2 = spec_project(row@, attrs.skip(i + 1))->Some_0;
                assert(prev.map_values(|f: RowField| f@) + rest =~= fields@.map_values(
                    |f: RowField| f@,
                ) + rest2);
            }
        }
        i += 1;
    }
    proof {
        assert(attrs.skip(attrs.len() as int) =~= Seq::<Seq<char>>::empty());
        if spec_project(row@, attrs) is Some {
            assert(spec_project(row@, attrs)->Some_0 =~= fields@.map_values(|f: RowField| f@));
        }
    }
    Ok(NewRow::new(Row::new(fields)))
}

proof fn lemma_find_none_is_field_value_none(fields: Seq<FieldModel>, attr: Seq<char>)
    requires
        forall|j: int| 0 <= j < fields.len() ==> #[trigger] fields[j].name != attr,
    ensures
        field_value(fields, attr) is None,
    decreases fields.len(),
{
    if fields.len() > 0 {
        let t = fields.drop_first();
        assert forall|j: int| 0 <= j < t.len() implies #[trigger] t[j].name != attr by {
            assert(t[j] == fields[j + 1]);
        }
        lemma_find_none_is_field_value_none(t, attr);
    }
}

proof fn lemma_find_first_is_field_value(fields: Seq<FieldModel>, attr: Seq<char>, i: int)
    requires
        0 <= i < fields.len(),
        fields[i].name == attr,
        forall|j: int| 0 <= j < i ==> #[trigger] fields[j].name != attr,
    ensures
        field_value(fields, attr) == Option::Some(fields[i].value),
    decreases i,
{
    if i > 0 {
        let t = fields.drop_first();
        assert(t[i - 1] == fields[i]);
        assert forall|j: int| 0 <= j < i - 1 implies #[trigger] t[j].name != attr by {
            assert(t[j] == fields[j + 1]);
        }
        lemma_find_first_is_field_value(t, attr, i - 1);
    }
}

} // verus!
