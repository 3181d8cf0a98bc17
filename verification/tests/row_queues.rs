use springql::error::SpringError;
use springql::name::ColumnName;
use springql::row::Row;
use springql::row::RowField;
use springql::row_repository::NaiveRowRepository;
use springql::task::TaskId;
use springql::value::SqlValue;

fn task(n: &str) -> TaskId {
    TaskId::new(n.to_string())
}

fn row(v: i64) -> Row {
    Row::new(vec![RowField::new(
        ColumnName::new("amount".to_string()),
        SqlValue::Integer { v },
    )])
}

#[test]
fn test_emit_fans_out_and_collect_is_fifo_per_edge() {
    let b = task("b");
    let c = task("c");
    let f = task("f");
    let mut repo = NaiveRowRepository::default();
    repo.reset(vec![b.clone(), c.clone(), f.clone()]);

    repo.emit(row(1), &[b.clone(), c.clone()]).unwrap();
    assert_eq!(repo.collect_next(&b).unwrap(), row(1));
    repo.emit(row(2), &[b.clone(), c.clone()]).unwrap();
    assert_eq!(repo.collect_next(&c).unwrap(), row(1));
    assert_eq!(repo.collect_next(&c).unwrap(), row(2));
    repo.emit(row(3), &[f.clone()]).unwrap();
    assert_eq!(repo.collect_next(&b).unwrap(), row(2));
    assert!(matches!(repo.collect_next(&b).unwrap_err(), SpringError::InputTimeout));
    assert_eq!(repo.collect_next(&f).unwrap(), row(3));
}

#[test]
fn test_single_consumer_edge_returns_emit_order() {
    let b = task("b");
    let mut repo = NaiveRowRepository::default();
    repo.reset(vec![b.clone()]);
    let emitted: Vec<i64> = vec![10, 30, 50, 70];
    for v in &emitted {
        repo.emit(row(*v), &[b.clone()]).unwrap();
    }
    let mut collected: Vec<Row> = Vec::new();
    for _ in 0..emitted.len() {
        collected.push(repo.collect_next(&b).unwrap());
    }
    assert_eq!(
        collected,
        vec![row(10), row(30), row(50), row(70)]
    );
    assert!(matches!(repo.collect_next(&b).unwrap_err(), SpringError::InputTimeout));
}

#[test]
fn test_reset_recreates_empty_queues() {
    let b = task("b");
    let c = task("c");
    let mut repo = NaiveRowRepository::default();
    repo.reset(vec![b.clone()]);
    repo.emit(row(1), &[b.clone()]).unwrap();
    repo.reset(vec![b.clone(), c.clone()]);
    assert!(matches!(repo.collect_next(&b).unwrap_err(), SpringError::InputTimeout));
    assert!(matches!(repo.collect_next(&c).unwrap_err(), SpringError::InputTimeout));
}

#[test]
fn test_purge_drops_rows_but_keeps_queues() {
    let b = task("b");
    let c = task("c");
    let mut repo = NaiveRowRepository::default();
    repo.reset(vec![b.clone(), c.clone()]);
    repo.emit(row(1), &[b.clone(), c.clone()]).unwrap();
    repo.emit(row(2), &[b.clone()]).unwrap();
    assert_eq!(repo.queue_len(&b), 2);
    repo.purge_all();
    assert_eq!(repo.queue_len(&b), 0);
    assert_eq!(repo.queue_len(&c), 0);
    assert!(matches!(repo.collect_next(&b).unwrap_err(), SpringError::InputTimeout));
    // the queues survive the purge and accept new rows
    repo.emit(row(9), &[c.clone()]).unwrap();
    assert_eq!(repo.collect_next(&c).unwrap(), row(9));
}

#[test]
fn test_emit_shares_one_reference_per_downstream() {
    // a row emitted to N downstreams is seen once by each of the N
    // consumers, and by nobody else
    let b = task("b");
    let c = task("c");
    let d = task("d");
    let mut repo = NaiveRowRepository::default();
    repo.reset(vec![b.clone(), c.clone(), d.clone()]);
    repo.emit(row(42), &[b.clone(), c.clone()]).unwrap();
    assert_eq!(repo.queue_len(&b), 1);
    assert_eq!(repo.queue_len(&c), 1);
    assert_eq!(repo.queue_len(&d), 0);
    assert_eq!(repo.collect_next(&b).unwrap(), row(42));
    assert_eq!(repo.collect_next(&c).unwrap(), row(42));
    // both consumers done: no queue holds the row any more
    assert_eq!(repo.queue_len(&b), 0);
    assert_eq!(repo.queue_len(&c), 0);
}
