use springql::error::SpringError;
use springql::expression::FieldPointer;
use springql::projection::project_row;
use springql::json::JsonField;
use springql::json::JsonObject;
use springql::json::JsonValue;
use springql::json::into_row;
use springql::json::row_to_json;
use springql::name::ColumnName;
use springql::name::StreamName;
use springql::row::Row;
use springql::row::RowField;
use springql::stream_model::ColumnDef;
use springql::stream_model::SqlType;
use springql::stream_model::StreamModel;
use springql::value::SpringTimestamp;
use springql::value::SqlValue;
use springql::value::check_timestamp_text;

fn fx_trade_stream() -> StreamModel {
    StreamModel::new(
        StreamName::new("source_trade".to_string()),
        vec![
            ColumnDef::new(ColumnName::new("ts".to_string()), SqlType::Timestamp, false, true),
            ColumnDef::new(ColumnName::new("ticker".to_string()), SqlType::Text, false, false),
            ColumnDef::new(ColumnName::new("amount".to_string()), SqlType::Integer, false, false),
        ],
    )
}

fn fx_trade_row(ts: &str, ticker: &str, amount: i64) -> Row {
    Row::new(vec![
        RowField::new(
            ColumnName::new("ts".to_string()),
            SqlValue::Timestamp { t: SpringTimestamp::parse(ts.to_string()).unwrap() },
        ),
        RowField::new(
            ColumnName::new("ticker".to_string()),
            SqlValue::Text { s: ticker.to_string() },
        ),
        RowField::new(ColumnName::new("amount".to_string()), SqlValue::Integer { v: amount }),
    ])
}

#[test]
fn test_json_round_trip_passthrough() {
    let row = fx_trade_row("2020-01-01 00:00:00.000000000", "ORCL", 10);
    let obj = row_to_json(&row);
    let back = into_row(&obj, &fx_trade_stream()).unwrap();
    assert_eq!(back, row);
}

#[test]
fn test_json_encoding_is_in_schema_order() {
    let row = fx_trade_row("2020-01-01 00:00:00.000000000", "ORCL", 10);
    let obj = row_to_json(&row);
    assert_eq!(obj.fields.len(), 3);
    assert_eq!(obj.fields[0].name, "ts".to_string());
    assert!(matches!(&obj.fields[0].value, JsonValue::Text { s } if s == "2020-01-01 00:00:00.000000000"));
    assert_eq!(obj.fields[1].name, "ticker".to_string());
    assert_eq!(obj.fields[2].name, "amount".to_string());
    assert!(matches!(obj.fields[2].value, JsonValue::Integer { v: 10 }));
}

#[test]
fn test_member_order_and_unknown_members_are_ignored() {
    let shuffled = JsonObject::new(vec![
        JsonField { name: "amount".to_string(), value: JsonValue::Integer { v: 30 } },
        JsonField { name: "comment".to_string(), value: JsonValue::Text { s: "x".to_string() } },
        JsonField { name: "ticker".to_string(), value: JsonValue::Text { s: "GOOGL".to_string() } },
        JsonField {
            name: "ts".to_string(),
            value: JsonValue::Text { s: "2020-01-01 00:00:09.999999999".to_string() },
        },
    ]);
    let row = into_row(&shuffled, &fx_trade_stream()).unwrap();
    assert_eq!(row, fx_trade_row("2020-01-01 00:00:09.999999999", "GOOGL", 30));
}

#[test]
fn test_missing_non_null_member_is_sql_error() {
    let obj = JsonObject::new(vec![JsonField {
        name: "ts".to_string(),
        value: JsonValue::Text { s: "2020-01-01 00:00:00.000000000".to_string() },
    }]);
    assert!(matches!(
        into_row(&obj, &fx_trade_stream()).unwrap_err(),
        SpringError::Sql { .. }
    ));
}

#[test]
fn test_null_member_fills_nullable_column() {
    let stream = StreamModel::new(
        StreamName::new("st_notes".to_string()),
        vec![
            ColumnDef::new(ColumnName::new("amount".to_string()), SqlType::Integer, false, false),
            ColumnDef::new(ColumnName::new("note".to_string()), SqlType::Text, true, false),
        ],
    );
    let obj = JsonObject::new(vec![
        JsonField { name: "amount".to_string(), value: JsonValue::Integer { v: 7 } },
        JsonField { name: "note".to_string(), value: JsonValue::Null },
    ]);
    let row = into_row(&obj, &stream).unwrap();
    assert_eq!(
        row,
        Row::new(vec![
            RowField::new(ColumnName::new("amount".to_string()), SqlValue::Integer { v: 7 }),
            RowField::new(ColumnName::new("note".to_string()), SqlValue::Null),
        ])
    );
    // a missing nullable member reads as NULL too
    let obj2 = JsonObject::new(vec![JsonField {
        name: "amount".to_string(),
        value: JsonValue::Integer { v: 7 },
    }]);
    assert_eq!(into_row(&obj2, &stream).unwrap(), row);
}

#[test]
fn test_wrong_member_type_is_sql_error() {
    let obj = JsonObject::new(vec![
        JsonField {
            name: "ts".to_string(),
            value: JsonValue::Text { s: "2020-01-01 00:00:00.000000000".to_string() },
        },
        JsonField { name: "ticker".to_string(), value: JsonValue::Integer { v: 1 } },
        JsonField { name: "amount".to_string(), value: JsonValue::Integer { v: 10 } },
    ]);
    assert!(matches!(
        into_row(&obj, &fx_trade_stream()).unwrap_err(),
        SpringError::Sql { .. }
    ));
}

#[test]
fn test_timestamp_text_shape() {
    assert!(check_timestamp_text("2020-01-01 00:00:00.000000000"));
    assert!(check_timestamp_text("2020-01-01 23:59:59.999999999"));
    assert!(!check_timestamp_text("2020-01-01 00:00:00"));
    assert!(!check_timestamp_text("2020-01-01T00:00:00.000000000"));
    assert!(!check_timestamp_text("2020-01-0a 00:00:00.000000000"));
    assert!(!check_timestamp_text(""));
    assert!(SpringTimestamp::parse("2020-01-01 00:00:10.000000000".to_string()).is_ok());
    assert!(matches!(
        SpringTimestamp::parse("today".to_string()).unwrap_err(),
        SpringError::Sql { .. }
    ));
}

#[test]
fn test_projection_keeps_only_selected_columns() {
    // SELECT amount FROM source_trade: one row out per row in, amount only
    let row = fx_trade_row("2020-01-01 00:00:00.000000000", "ORCL", 10);
    let projected = project_row(&row, &vec![FieldPointer::bare("amount".to_string())]).unwrap();
    let out: Row = Row::from(projected);
    assert_eq!(
        out,
        Row::new(vec![RowField::new(
            ColumnName::new("amount".to_string()),
            SqlValue::Integer { v: 10 },
        )])
    );
}

#[test]
fn test_projection_of_unknown_column_is_sql_error() {
    let row = fx_trade_row("2020-01-01 00:00:00.000000000", "ORCL", 10);
    let e = project_row(&row, &vec![FieldPointer::bare("volume".to_string())]).unwrap_err();
    assert!(matches!(e, SpringError::Sql { .. }));
}
