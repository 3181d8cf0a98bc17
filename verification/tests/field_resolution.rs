use springql::error::SpringError;
use springql::expression::ColumnReference;
use springql::expression::Expression;
use springql::expression::FieldPointer;
use springql::expression::FunctionCall;
use springql::name::ColumnName;
use springql::name::StreamName;
use springql::select_syntax_analyzer::SelectFieldSyntax;
use springql::select_syntax_analyzer::SelectSyntax;
use springql::select_syntax_analyzer::SelectSyntaxAnalyzer;

fn stream(n: &str) -> StreamName {
    StreamName::new(n.to_string())
}

fn colref(s: &str, c: &str) -> ColumnReference {
    ColumnReference::new(stream(s), ColumnName::new(c.to_string()))
}

fn bare_field(attr: &str) -> SelectFieldSyntax {
    SelectFieldSyntax {
        expression: Expression::FieldPointer { ptr: FieldPointer::bare(attr.to_string()) },
    }
}

#[test]
fn test_bare_column_resolves_against_single_from_item() {
    // SELECT amount FROM source_trade
    let analyzer = SelectSyntaxAnalyzer::new(SelectSyntax {
        fields: vec![bare_field("amount")],
        from_item_streams: vec![stream("source_trade")],
    });
    let refs = analyzer.column_references_in_projection().unwrap();
    assert_eq!(refs.len(), 1);
    assert_eq!(refs[0], colref("source_trade", "amount"));
}

#[test]
fn test_bare_column_with_two_from_items_is_ambiguous() {
    let analyzer = SelectSyntaxAnalyzer::new(SelectSyntax {
        fields: vec![bare_field("amount")],
        from_item_streams: vec![stream("trade1"), stream("trade2")],
    });
    match analyzer.column_references_in_projection().unwrap_err() {
        SpringError::Sql { msg } => assert!(msg.contains("needs pipeline info")),
        other => panic!("unexpected error: {:?}", other),
    }
}

#[test]
fn test_prefixed_column_resolves_to_its_stream() {
    let ptr = FieldPointer::qualified("trade2".to_string(), "amount".to_string());
    let streams = vec![stream("trade1"), stream("trade2")];
    let r = SelectSyntaxAnalyzer::column_reference(&ptr, &streams).unwrap();
    assert_eq!(r, colref("trade2", "amount"));
}

#[test]
fn test_prefix_matching_no_from_item_is_sql_error() {
    let ptr = FieldPointer::qualified("trade9".to_string(), "amount".to_string());
    let streams = vec![stream("trade1"), stream("trade2")];
    assert!(matches!(
        SelectSyntaxAnalyzer::column_reference(&ptr, &streams).unwrap_err(),
        SpringError::Sql { .. }
    ));
}

#[test]
fn test_floor_over_column_projects_under_attribute_name() {
    // SELECT FLOOR(ts, DURATION_SECS(10)) ... FROM source_trade
    let field = SelectFieldSyntax {
        expression: Expression::FunctionCall {
            call: FunctionCall::FloorTime {
                target: Box::new(Expression::FieldPointer {
                    ptr: FieldPointer::bare("ts".to_string()),
                }),
                resolution: Box::new(Expression::FunctionCall {
                    call: FunctionCall::DurationSecs { secs: 10 },
                }),
            },
        },
    };
    let streams = vec![stream("source_trade")];
    let r = SelectSyntaxAnalyzer::select_field_into_colref(&field, &streams).unwrap();
    assert_eq!(r, colref("source_trade", "ts"));
}

#[test]
fn test_boolean_expression_projects_placeholder() {
    let field = SelectFieldSyntax {
        expression: Expression::BooleanExpr {
            left: Box::new(Expression::FieldPointer { ptr: FieldPointer::bare("a".to_string()) }),
            right: Box::new(Expression::FieldPointer { ptr: FieldPointer::bare("b".to_string()) }),
        },
    };
    let streams = vec![stream("source_trade")];
    let r = SelectSyntaxAnalyzer::select_field_into_colref(&field, &streams).unwrap();
    assert_eq!(r, colref("_", "_"));
}

#[test]
fn test_field_expressions_keeps_field_order() {
    let analyzer = SelectSyntaxAnalyzer::new(SelectSyntax {
        fields: vec![bare_field("ts"), bare_field("amount")],
        from_item_streams: vec![stream("source_trade")],
    });
    let exprs = analyzer.field_expressions();
    assert_eq!(exprs.len(), 2);
    assert!(
        matches!(&exprs[0], Expression::FieldPointer { ptr } if *ptr.attr() == "ts".to_string())
    );
    assert!(
        matches!(&exprs[1], Expression::FieldPointer { ptr } if *ptr.attr() == "amount".to_string())
    );
}

#[test]
fn test_from_item_streams_lists_declaration_order() {
    let analyzer = SelectSyntaxAnalyzer::new(SelectSyntax {
        fields: vec![],
        from_item_streams: vec![stream("a"), stream("b")],
    });
    let streams = analyzer.from_item_streams().unwrap();
    assert_eq!(streams.len(), 2);
    assert_eq!(streams[0], stream("a"));
    assert_eq!(streams[1], stream("b"));
}

#[test]
fn test_projection_resolves_mixed_fields_in_order() {
    let analyzer = SelectSyntaxAnalyzer::new(SelectSyntax {
        fields: vec![
            SelectFieldSyntax {
                expression: Expression::FunctionCall {
                    call: FunctionCall::FloorTime {
                        target: Box::new(Expression::FieldPointer {
                            ptr: FieldPointer::bare("ts".to_string()),
                        }),
                        resolution: Box::new(Expression::FunctionCall {
                            call: FunctionCall::DurationSecs { secs: 10 },
                        }),
                    },
                },
            },
            bare_field("amount"),
        ],
        from_item_streams: vec![stream("source_trade")],
    });
    let refs = analyzer.column_references_in_projection().unwrap();
    assert_eq!(refs.len(), 2);
    assert_eq!(refs[0], colref("source_trade", "ts"));
    assert_eq!(refs[1], colref("source_trade", "amount"));
}
