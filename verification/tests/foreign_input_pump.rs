use springql::error::SpringError;
use springql::foreign_input::FifoInputServer;
use springql::foreign_input::ForeignInputPump;
use springql::json::JsonField;
use springql::json::JsonObject;
use springql::json::JsonValue;
use springql::name::ColumnName;
use springql::name::StreamName;
use springql::row::Row;
use springql::row::RowField;
use springql::stream_model::ColumnDef;
use springql::stream_model::SqlType;
use springql::stream_model::StreamModel;
use springql::value::SpringTimestamp;
use springql::value::SqlValue;

fn fx_city_temperature() -> StreamModel {
    StreamModel::new(
        StreamName::new("st_city_temperature".to_string()),
        vec![
            ColumnDef::new(ColumnName::new("ts".to_string()), SqlType::Timestamp, false, true),
            ColumnDef::new(ColumnName::new("city".to_string()), SqlType::Text, false, false),
            ColumnDef::new(
                ColumnName::new("temperature".to_string()),
                SqlType::Integer,
                false,
                false,
            ),
        ],
    )
}

fn fx_json(ts: &str, city: &str, temperature: i64) -> JsonObject {
    JsonObject::new(vec![
        JsonField { name: "ts".to_string(), value: JsonValue::Text { s: ts.to_string() } },
        JsonField { name: "city".to_string(), value: JsonValue::Text { s: city.to_string() } },
        JsonField { name: "temperature".to_string(), value: JsonValue::Integer { v: temperature } },
    ])
}

fn fx_row(ts: &str, city: &str, temperature: i64) -> Row {
    Row::new(vec![
        RowField::new(
            ColumnName::new("ts".to_string()),
            SqlValue::Timestamp { t: SpringTimestamp::parse(ts.to_string()).unwrap() },
        ),
        RowField::new(
            ColumnName::new("city".to_string()),
            SqlValue::Text { s: city.to_string() },
        ),
        RowField::new(
            ColumnName::new("temperature".to_string()),
            SqlValue::Integer { v: temperature },
        ),
    ])
}

#[test]
fn test_foreign_input_pump() {
    let t = "2020-01-01 13:00:00.000000000";

    let j1 = fx_json(t, "Tokyo", 21);
    let j2 = fx_json(t, "Osaka", 23);
    let j3 = fx_json(t, "London", 13);

    let server = FifoInputServer::new_fifo_batch(vec![j1, j2, j3]);
    let stream = fx_city_temperature();
    let mut pump = ForeignInputPump::new(server, stream);

    assert_eq!(pump._collect_next().unwrap(), fx_row(t, "Tokyo", 21));
    assert_eq!(pump._collect_next().unwrap(), fx_row(t, "Osaka", 23));
    assert_eq!(pump._collect_next().unwrap(), fx_row(t, "London", 13));
    assert!(matches!(
        pump._collect_next().unwrap_err(),
        SpringError::ForeignInputTimeout
    ));
}

#[test]
fn test_pump_rejects_row_missing_non_null_member() {
    let bad = JsonObject::new(vec![JsonField {
        name: "city".to_string(),
        value: JsonValue::Text { s: "Tokyo".to_string() },
    }]);
    let server = FifoInputServer::new_fifo_batch(vec![bad]);
    let mut pump = ForeignInputPump::new(server, fx_city_temperature());
    assert!(matches!(pump._collect_next().unwrap_err(), SpringError::Sql { .. }));
    assert!(matches!(
        pump._collect_next().unwrap_err(),
        SpringError::ForeignInputTimeout
    ));
}

#[test]
fn test_pump_rejects_malformed_timestamp() {
    let bad = fx_json("2020-01-01", "Tokyo", 21);
    let server = FifoInputServer::new_fifo_batch(vec![bad]);
    let mut pump = ForeignInputPump::new(server, fx_city_temperature());
    assert!(matches!(pump._collect_next().unwrap_err(), SpringError::Sql { .. }));
}
