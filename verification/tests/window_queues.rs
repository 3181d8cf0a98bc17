use springql::name::ColumnName;
use springql::row::Row;
use springql::row::RowField;
use springql::row_repository::NaiveRowRepository;
use springql::row_repository::rowtime_of;
use springql::task::TaskId;
use springql::value::SpringTimestamp;
use springql::value::SqlValue;

fn ts(text: &str) -> SpringTimestamp {
    SpringTimestamp::parse(text.to_string()).unwrap()
}

fn trade_row(rowtime: &str, amount: i64) -> Row {
    Row::new(vec![
        RowField::new(
            ColumnName::new("ts".to_string()),
            SqlValue::Timestamp { t: ts(rowtime) },
        ),
        RowField::new(ColumnName::new("amount".to_string()), SqlValue::Integer { v: amount }),
    ])
}

#[test]
fn test_timestamp_order_is_chronological() {
    let a = ts("2020-01-01 00:00:09.999999999");
    let b = ts("2020-01-01 00:00:10.000000000");
    assert!(a.lt_ts(&b));
    assert!(!b.lt_ts(&a));
    assert!(!a.lt_ts(&a));
}

#[test]
fn test_rowtime_is_the_timestamp_field() {
    let row = trade_row("2020-01-01 00:00:00.000000000", 10);
    let t = rowtime_of(&row).unwrap();
    assert!(!t.lt_ts(&ts("2020-01-01 00:00:00.000000000")));
    let no_rowtime = Row::new(vec![RowField::new(
        ColumnName::new("amount".to_string()),
        SqlValue::Integer { v: 1 },
    )]);
    assert!(rowtime_of(&no_rowtime).is_none());
}

#[test]
fn test_purge_older_than_evicts_by_rowtime() {
    let w = TaskId::new("window_pump".to_string());
    let mut repo = NaiveRowRepository::default();
    repo.reset(vec![w.clone()]);
    repo.emit(trade_row("2020-01-01 00:00:00.000000000", 10), &[w.clone()]).unwrap();
    repo.emit(trade_row("2020-01-01 00:00:09.999999999", 30), &[w.clone()]).unwrap();
    repo.emit(trade_row("2020-01-01 00:00:10.000000000", 50), &[w.clone()]).unwrap();
    repo.emit(trade_row("2020-01-01 00:00:20.000000000", 70), &[w.clone()]).unwrap();

    // the first window [00, 10) closes: its rows are evicted
    repo.purge_older_than(&ts("2020-01-01 00:00:10.000000000"));
    assert_eq!(repo.queue_len(&w), 2);
    assert_eq!(
        repo.collect_next(&w).unwrap(),
        trade_row("2020-01-01 00:00:10.000000000", 50)
    );
    assert_eq!(
        repo.collect_next(&w).unwrap(),
        trade_row("2020-01-01 00:00:20.000000000", 70)
    );
}

#[test]
fn test_collect_window_reads_a_rowtime_range() {
    let w = TaskId::new("window_pump".to_string());
    let mut repo = NaiveRowRepository::default();
    repo.reset(vec![w.clone()]);
    // cross-producer arrival order is not chronological; the range goes by
    // each row's own rowtime
    repo.emit(trade_row("2020-01-01 00:00:10.000000000", 50), &[w.clone()]).unwrap();
    repo.emit(trade_row("2020-01-01 00:00:00.000000000", 10), &[w.clone()]).unwrap();
    repo.emit(trade_row("2020-01-01 00:00:09.999999999", 30), &[w.clone()]).unwrap();
    repo.emit(trade_row("2020-01-01 00:00:20.000000000", 70), &[w.clone()]).unwrap();

    let window = repo.collect_window(
        &w,
        &ts("2020-01-01 00:00:00.000000000"),
        &ts("2020-01-01 00:00:10.000000000"),
    );
    assert_eq!(
        window,
        vec![
            trade_row("2020-01-01 00:00:00.000000000", 10),
            trade_row("2020-01-01 00:00:09.999999999", 30),
        ]
    );
    // reading a window does not consume the queue
    assert_eq!(repo.queue_len(&w), 4);
}
