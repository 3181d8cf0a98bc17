use std::sync::Arc;

use springql::insert_plan::InsertPlan;
use springql::name::ColumnName;
use springql::name::StreamName;
use springql::query_plan_operation::QueryPlanOperation;
use springql::query_plan_operation::WindowDuration;
use springql::row::NewRow;
use springql::row::PreservedRow;
use springql::row::Row;
use springql::row::RowField;
use springql::server_model::Options;
use springql::server_model::ServerModel;
use springql::server_model::ServerType;
use springql::value::SqlValue;

fn amount_row(v: i64) -> Row {
    Row::new(vec![RowField::new(
        ColumnName::new("amount".to_string()),
        SqlValue::Integer { v },
    )])
}

#[test]
fn test_insert_plan_names_its_stream() {
    let plan = InsertPlan::new(
        StreamName::new("sink_sampled_trade_amount".to_string()),
        vec![ColumnName::new("ts".to_string()), ColumnName::new("amount".to_string())],
    );
    assert_eq!(*plan.stream(), StreamName::new("sink_sampled_trade_amount".to_string()));
}

#[test]
fn test_preserved_row_shares_and_new_row_owns() {
    let row = amount_row(10);
    let shared = Arc::new(row);
    let preserved = PreservedRow::new(Arc::clone(&shared));
    assert_eq!(preserved.as_ref(), &*shared);

    let owned = NewRow::new(amount_row(20));
    let back: Row = Row::from(owned);
    assert_eq!(back, amount_row(20));
}

#[test]
fn test_server_model_compares_by_configuration() {
    let opts = |port: &str| {
        Options::new(vec![
            ("PROTOCOL".to_string(), "TCP".to_string()),
            ("REMOTE_PORT".to_string(), port.to_string()),
        ])
    };
    let a = ServerModel::new(ServerType::SourceNet, opts("17890"));
    let b = ServerModel::new(ServerType::SourceNet, opts("17890"));
    let c = ServerModel::new(ServerType::SourceNet, opts("17891"));
    assert!(a.eq_model(&b));
    assert!(!a.eq_model(&c));
    assert_eq!(a.server_type(), ServerType::SourceNet);
}

#[test]
fn test_query_plan_operations_carry_their_parameters() {
    let op = QueryPlanOperation::TimeBasedSlidingWindow {
        lower_bound: WindowDuration { secs: 10 },
    };
    assert!(
        matches!(op, QueryPlanOperation::TimeBasedSlidingWindow { lower_bound } if lower_bound.secs == 10)
    );
    let collect = QueryPlanOperation::Collect {
        stream: StreamName::new("source_trade".to_string()),
    };
    assert!(
        matches!(collect, QueryPlanOperation::Collect { stream } if stream == StreamName::new("source_trade".to_string()))
    );
}
