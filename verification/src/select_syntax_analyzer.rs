//! Resolution of SELECT fields against the FROM items.
//!
//! A bare attribute name binds to the unique FROM-item stream if there is
//! exactly one; with multiple FROM items the pointer must carry a prefix
//! matching one of them; no match is a `Sql` error.

use vstd::prelude::*;

use crate::error::SpringError;
use crate::expression::ColumnReference;
use crate::expression::ColumnReferenceModel;
use crate::expression::Expression;
use crate::expression::FieldPointer;
use crate::expression::FieldPointerModel;
use crate::expression::FunctionCall;
use crate::name::ColumnName;
use crate::name::StreamName;

verus! {

/// One field of a SELECT list.
pub struct SelectFieldSyntax {
    pub expression: Expression,
}

/// The parsed shape of a SELECT statement, as the parser hands it over:
/// the field list and the FROM-item streams.
pub struct SelectSyntax {
    pub fields: Vec<SelectFieldSyntax>,
    pub from_item_streams: Vec<StreamName>,
}

/// Resolves the pieces of one SELECT statement for the query planner.
pub struct SelectSyntaxAnalyzer {
    pub select_syntax: SelectSyntax,
}

/// The SELECT-field shapes the resolver takes. Constants, unary operations
/// and `DURATION_SECS` in the field list, and `FLOOR` over anything but a
/// plain column, are not resolvable.
pub open spec fn supported_select_field(e: Expression) -> bool {
    match e {
        Expression::Constant { .. } => false,
        Expression::UnaryOperator { .. } => false,
        Expression::BooleanExpr { .. } => true,
        Expression::FieldPointer { .. } => true,
        Expression::FunctionCall { call } => match call {
            FunctionCall::FloorTime { target, .. } => (*target) matches Expression::FieldPointer {
                ..
            },
            FunctionCall::DurationSecs { .. } => false,
        },
    }
}

/// Where a pointer resolves among the FROM-item streams: to its prefix's
/// stream when it has a prefix that is one of them, to the only stream when
/// it is bare and there is exactly one, and nowhere otherwise.
pub open spec fn spec_column_reference(
    p: FieldPointerModel,
    streams: Seq<Seq<char>>,
) -> Option<ColumnReferenceModel> {
    match p.prefix {
        Option::Some(pre) => if crate::row_repository::name_in(streams, pre) {
            Option::Some(ColumnReferenceModel { stream: pre, column: p.attr })
        } else {
            Option::None
        },
        Option::None => if streams.len() == 1 {
            Option::Some(ColumnReferenceModel { stream: streams[0], column: p.attr })
        } else {
            Option::None
        },
    }
}

/// Where one supported SELECT field resolves: a boolean expression gets the
/// placeholder reference, a column resolves by `spec_column_reference`, and
/// `FLOOR` over a column resolves to the first FROM item under the column's
/// attribute name.
pub open spec fn spec_select_field_colref(
    e: Expression,
    streams: Seq<Seq<char>>,
) -> Option<ColumnReferenceModel>
    recommends
        supported_select_field(e),
        streams.len() > 0,
{
    match e {
        Expression::BooleanExpr { .. } => Option::Some(
            ColumnReferenceModel { stream: "_"@, column: "_"@ },
        ),
        Expression::FieldPointer { ptr } => spec_column_reference(ptr@, streams),
        Expression::FunctionCall { call } => match call {
            FunctionCall::FloorTime { target, .. } => match *target {
                Expression::FieldPointer { ptr } => Option::Some(
                    ColumnReferenceModel { stream: streams[0], column: ptr@.attr },
                ),
                _ => Option::None,
            },
            _ => Option::None,
        },
        _ => Option::None,
    }
}

/// The whole projection resolved field by field; nothing as soon as one
/// field fails.
pub open spec fn spec_projection_colrefs(
    fields: Seq<SelectFieldSyntax>,
    streams: Seq<Seq<char>>,
) -> Option<Seq<ColumnReferenceModel>>
    decreases fields.len(),
{
    if fields.len() == 0 {
        Option::Some(Seq::<ColumnReferenceModel>::empty())
    } else {
        match spec_select_field_colref(fields[0].expression, streams) {
            Option::Some(c) => match spec_projection_colrefs(fields.drop_first(), streams) {
                Option::Some(rest) => Option::Some(seq![c] + rest),
                Option::None => Option::None,
            },
            Option::None => Option::None,
        }
    }
}

impl SelectSyntaxAnalyzer {
    pub fn new(select_syntax: SelectSyntax) -> (r: Self)
        ensures
            r.select_syntax == select_syntax,
    {
        SelectSyntaxAnalyzer { select_syntax }
    }

    /// The FROM-item streams of the statement, in declaration order.
    pub fn from_item_streams(&self) -> (r: Result<Vec<StreamName>, SpringError>)
        ensures
            r matches Ok(v) && v@ == self.select_syntax.from_item_streams@,
    {
        let mut v: Vec<StreamName> = Vec::new();
        let mut i: usize = 0;
        while i < self.select_syntax.from_item_streams.len()
            invariant
                i <= self.select_syntax.from_item_streams@.len(),
                v@ =~= self.select_syntax.from_item_streams@.subrange(0, i as int),
            decreases self.select_syntax.from_item_streams.len() - i,
        {
            v.push(self.select_syntax.from_item_streams[i].clone());
            i += 1;
        }
        proof {
            assert(v@ =~= self.select_syntax.from_item_streams@);
        }
        Ok(v)
    }

    /// The expression of each SELECT field, in field order.
    pub fn field_expressions(&self) -> (r: Vec<Expression>)
        ensures
            r@ == self.select_syntax.fields@.map_values(|f: SelectFieldSyntax| f.expression),
    {
        let select_fields = &self.select_syntax.fields;
        let mut r: Vec<Expression> = Vec::new();
        let mut i: usize = 0;
        while i < select_fields.len()
            invariant
                i <= select_fields@.len(),
                r@ =~= select_fields@.subrange(0, i as int).map_values(
                    |f: SelectFieldSyntax| f.expression,
                ),
            decreases select_fields.len() - i,
        {
            proof {
                assert(select_fields@.subrange(0, i + 1).map_values(
                    |f: SelectFieldSyntax| f.expression,
                ) =~= select_fields@.subrange(0, i as int).map_values(
                    |f: SelectFieldSyntax| f.expression,
                ).push(select_fields@[i as int].expression));
            }
            r.push(select_fields[i].expression.clone());
            i += 1;
        }
        proof {
            assert(select_fields@.subrange(0, select_fields@.len() as int) =~= select_fields@);
        }
        r
    }

    /// The column reference each SELECT field projects to.
    ///
    /// # Failures
    ///
    /// - `SpringError::Sql` when a field does not resolve against the
    ///   FROM-item streams.
    pub fn column_references_in_projection(&self) -> (r: Result<Vec<ColumnReference>, SpringError>)
        requires
            self.select_syntax.from_item_streams@.len() > 0,
            forall|i: int|
                0 <= i < self.select_syntax.fields@.len() ==> supported_select_field(
                    #[trigger] self.select_syntax.fields@[i].expression,
                ),
        ensures
            match r {
                Ok(v) => spec_projection_colrefs(
                    self.select_syntax.fields@,
                    self.select_syntax.from_item_streams@.map_values(|s: StreamName| s@),
                ) == Option::Some(v@.map_values(|c: ColumnReference| c@)),
                Err(e) => spec_projection_colrefs(
                    self.select_syntax.fields@,
                    self.select_syntax.from_item_streams@.map_values(|s: StreamName| s@),
                ) is None && e matches SpringError::Sql { .. },
            },
    {
        let from_item_streams = match self.from_item_streams() {
            Ok(v) => v,
            Err(e) => {
                proof {
                    assert(false);
                }
                return Err(e);
            },
        };
        let select_fields = &self.select_syntax.fields;
        let ghost streams = from_item_streams@.map_values(|s: StreamName| s@);
        let ghost all_fields = select_fields@;
        proof {
            assert(all_fields.skip(0) =~= all_fields);
        }
        let mut out: Vec<ColumnReference> = Vec::new();
        let mut i: usize = 0;
        while i < select_fields.len()
            invariant
                i <= all_fields.len(),
                all_fields == select_fields@,
                all_fields == self.select_syntax.fields@,
                streams == from_item_streams@.map_values(|s: StreamName| s@),
                from_item_streams@ == self.select_syntax.from_item_streams@,
                streams.len() > 0,
                forall|j: int|
                    0 <= j < all_fields.len() ==> supported_select_field(
                        #[trigger] all_fields[j].expression,
                    ),
                spec_projection_colrefs(all_fields, streams) matches Option::Some(full)
                    ==> spec_projection_colrefs(all_fields.skip(i as int), streams)
                    matches Option::Some(rest) && full == out@.map_values(
                    |c: ColumnReference| c@,
                ) + rest,
                spec_projection_colrefs(all_fields, streams) is None ==> spec_projection_colrefs(
                    all_fields.skip(i as int),
                    streams,
                ) is None,
            decreases select_fields.len() - i,
        {
            proof {
                assert(all_fields.skip(i as int)[0] == all_fields[i as int]);
                assert(all_fields.skip(i as int).drop_first() =~= all_fields.skip(i + 1));
            }
            let c = match Self::select_field_into_colref(
                &select_fields[i],
                from_item_streams.as_slice(),
            ) {
                Ok(c) => c,
                Err(e) => {
                    proof {
                        assert(spec_projection_colrefs(all_fields.skip(i as int), streams)
                            is None);
                        assert(spec_projection_colrefs(all_fields, streams) is None);
                    }
                    return Err(e);
                },
            };
            let ghost prev_out = out@;
            out.push(c);
            proof {
                assert(out@.map_values(|c2: ColumnReference| c2@) =~= prev_out.map_values(
                    |c2: ColumnReference| c2@,
                ).push(c@));
                if spec_projection_colrefs(all_fields, streams) is Some {
                    let full = spec_projection_colrefs(all_fields, streams)->Some_0;
                    let rest = spec_projection_colrefs(all_fields.skip(i as int), streams)->Some_0;
                    let rest2 = spec_projection_colrefs(all_fields.skip(i + 1), streams)->Some_0;
                    assert(rest == seq![c@] + rest2);
                    assert(prev_out.map_values(|c2: ColumnReference| c2@) + rest =~= prev_out
                        .map_values(|c2: ColumnReference| c2@).push(c@) + rest2);
                }
            }
            i += 1;
        }
        proof {
            assert(all_fields.skip(all_fields.len() as int) =~= Seq::<SelectFieldSyntax>::empty());
            if spec_projection_colrefs(all_fields, streams) is Some {
                let full = spec_projection_colrefs(all_fields, streams)->Some_0;
                assert(full =~= out@.map_values(|c: ColumnReference| c@));
            }
        }
        Ok(out)
    }

    /// Resolves one supported SELECT field.
    ///
    /// # Failures
    ///
    /// - `SpringError::Sql` when the field's column does not resolve
    ///   against the FROM-item streams.
    pub fn select_field_into_colref(
        select_field: &SelectFieldSyntax,
        from_item_streams: &[StreamName],
    ) -> (r: Result<ColumnReference, SpringError>)
        requires
            supported_select_field(select_field.expression),
            from_item_streams@.len() > 0,
        ensures
            match r {
                Ok(c) => spec_select_field_colref(
                    select_field.expression,
                    from_item_streams@.map_values(|s: StreamName| s@),
                ) == Option::Some(c@),
                Err(e) => spec_select_field_colref(
                    select_field.expression,
                    from_item_streams@.map_values(|s: StreamName| s@),
                ) is None && e matches SpringError::Sql { .. },
            },
    {
        match &select_field.expression {
            Expression::BooleanExpr { .. } => Ok(
                ColumnReference::new(
                    StreamName::new("_".to_owned()),
                    ColumnName::new("_".to_owned()),
                ),
            ),
            Expression::FieldPointer { ptr } => Self::column_reference(ptr, from_item_streams),
            Expression::FunctionCall { call } => match call {
                FunctionCall::FloorTime { target, .. } => match &**target {
                    Expression::FieldPointer { ptr } => Ok(
                        ColumnReference::new(
                            from_item_streams[0].clone(),
                            ColumnName::new(ptr.attr().clone()),
                        ),
                    ),
                    _ => {
                        proof {
                            assert(false);
                        }
                        Err(SpringError::Sql { msg: "unsupported select field".to_owned() })
                    },
                },
                FunctionCall::DurationSecs { .. } => {
                    proof {
                        assert(false);
                    }
                    Err(SpringError::Sql { msg: "unsupported select field".to_owned() })
                },
            },
            _ => {
                proof {
                    assert(false);
                }
                Err(SpringError::Sql { msg: "unsupported select field".to_owned() })
            },
        }
    }

    /// Resolves a pointer against the FROM-item streams.
    ///
    /// # Failures
    ///
    /// - `SpringError::Sql` when:
    ///   - the pointer's prefix matches none of the FROM-item streams, or
    ///   - the pointer has no prefix and there is more than one FROM item.
    pub fn column_reference(
        pointer: &FieldPointer,
        from_item_streams: &[StreamName],
    ) -> (r: Result<ColumnReference, SpringError>)
        requires
            from_item_streams@.len() > 0,
        ensures
            match r {
                Ok(c) => spec_column_reference(
                    pointer@,
                    from_item_streams@.map_values(|s: StreamName| s@),
                ) == Option::Some(c@),
                Err(e) => spec_column_reference(
                    pointer@,
                    from_item_streams@.map_values(|s: StreamName| s@),
                ) is None && (e matches SpringError::Sql { msg } && msg@ == (
                match pointer@.prefix {
                    Option::Some(_) => "the pointer does not match any of the FROM items"@,
                    Option::None => "needs pipeline info to detect which stream has the column"@,
                })),
            },
    {
        match &pointer.prefix {
            Option::Some(corr) => Self::field_name_with_prefix(
                corr.as_str(),
                pointer.attr.as_str(),
                from_item_streams,
            ),
            Option::None => Self::field_name_without_prefix(
                pointer.attr.as_str(),
                from_item_streams,
            ),
        }
    }

    /// Resolves `prefix.attr` (as in `SELECT t.c FROM ...`).
    ///
    /// # Failures
    ///
    /// - `SpringError::Sql` when `prefix` matches none of the FROM-item
    ///   streams.
    fn field_name_with_prefix(
        prefix: &str,
        attr: &str,
        from_item_streams: &[StreamName],
    ) -> (r: Result<ColumnReference, SpringError>)
        requires
            from_item_streams@.len() > 0,
        ensures
            match r {
                Ok(c) => crate::row_repository::name_in(
                    from_item_streams@.map_values(|s: StreamName| s@),
                    prefix@,
                ) && c@ == (ColumnReferenceModel { stream: prefix@, column: attr@ }),
                Err(e) => !crate::row_repository::name_in(
                    from_item_streams@.map_values(|s: StreamName| s@),
                    prefix@,
                ) && (e matches SpringError::Sql { msg } && msg@
                    == "the pointer does not match any of the FROM items"@),
            },
    {
        let ghost streams = from_item_streams@.map_values(|s: StreamName| s@);
        let pointer = FieldPointer::qualified(prefix.to_owned(), attr.to_owned());
        let mut i: usize = 0;
        while i < from_item_streams.len()
            invariant
                i <= from_item_streams@.len(),
                streams == from_item_streams@.map_values(|s: StreamName| s@),
                pointer@ == (FieldPointerModel {
                    prefix: Option::Some(prefix@),
                    attr: attr@,
                }),
                forall|j: int| 0 <= j < i ==> #[trigger] streams[j] != prefix@,
            decreases from_item_streams.len() - i,
        {
            let stream_name = &from_item_streams[i];
            let colref_candidate = ColumnReference::new(
                stream_name.clone(),
                ColumnName::new(attr.to_owned()),
            );
            if colref_candidate.matches(&pointer) {
                proof {
                    assert(streams[i as int] == prefix@);
                    assert(crate::row_repository::name_in(streams, prefix@));
                }
                return Ok(colref_candidate);
            }
            i += 1;
        }
        proof {
            assert(!crate::row_repository::name_in(streams, prefix@));
        }
        Err(SpringError::Sql { msg: "the pointer does not match any of the FROM items".to_owned() })
    }

    /// Resolves a bare attribute (as in `SELECT c FROM t`): the column is
    /// from the only FROM item.
    ///
    /// # Failures
    ///
    /// - `SpringError::Sql` when more than one FROM item could carry the
    ///   column.
    fn field_name_without_prefix(attr: &str, from_item_streams: &[StreamName]) -> (r: Result<
        ColumnReference,
        SpringError,
    >)
        requires
            from_item_streams@.len() > 0,
        ensures
            match r {
                Ok(c) => from_item_streams@.len() == 1 && c@ == (ColumnReferenceModel {
                    stream: from_item_streams@[0]@,
                    column: attr@,
                }),
                Err(e) => from_item_streams@.len() > 1 && (e matches SpringError::Sql { msg }
                    && msg@ == "needs pipeline info to detect which stream has the column"@),
            },
    {
        if from_item_streams.len() > 1 {
            return Err(
                SpringError::Sql {
                    msg: "needs pipeline info to detect which stream has the column".to_owned(),
                },
            );
        }
        let from_item_stream = from_item_streams[0].clone();
        Ok(ColumnReference::new(from_item_stream, ColumnName::new(attr.to_owned())))
    }
}

} // verus!
