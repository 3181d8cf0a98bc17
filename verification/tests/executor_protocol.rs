use springql::config::default_config;
use springql::error::SpringError;
use springql::event_queue::Event;
use springql::event_queue::EventQueue;
use springql::foreign_input::FifoInputServer;
use springql::foreign_input::ForeignInputPump;
use springql::json::JsonField;
use springql::json::JsonObject;
use springql::json::JsonValue;
use springql::name::ColumnName;
use springql::name::StreamName;
use springql::row::Row;
use springql::row::RowField;
use springql::scheduler::SchedulerKind;
use springql::scheduler::TaskMetric;
use springql::scheduler::flow_efficient_next;
use springql::scheduler::memory_reducing_next;
use springql::scheduler::source_next;
use springql::server_model::Options;
use springql::server_model::ServerModel;
use springql::server_model::ServerType;
use springql::stream_model::ColumnDef;
use springql::stream_model::SqlType;
use springql::stream_model::StreamModel;
use springql::task::Edge;
use springql::task::QueueKind;
use springql::task::TaskGraph;
use springql::task::TaskId;
use springql::task::TaskKind;
use springql::task::TaskNode;
use springql::task_executor::NamedServer;
use springql::task_executor::PipelineDerivatives;
use springql::task_executor::TaskExecutor;
use springql::task_executor::TaskExecutorLock;
use springql::value::SpringTimestamp;
use springql::value::SqlValue;
use springql::worker::GenericWorker;

fn task(n: &str) -> TaskId {
    TaskId::new(n.to_string())
}

fn net_server(kind: ServerType, port: &str) -> ServerModel {
    ServerModel::new(
        kind,
        Options::new(vec![
            ("PROTOCOL".to_string(), "TCP".to_string()),
            ("REMOTE_HOST".to_string(), "127.0.0.1".to_string()),
            ("REMOTE_PORT".to_string(), port.to_string()),
        ]),
    )
}

fn fx_pipeline() -> PipelineDerivatives {
    let src = task("tg_source_trade");
    let pump = task("pu_passthrough");
    let sink = task("tg_sink_trade");
    PipelineDerivatives {
        all_sources: vec![NamedServer {
            name: "tcp_trade".to_string(),
            server: net_server(ServerType::SourceNet, "17890"),
        }],
        all_sinks: vec![NamedServer {
            name: "tcp_sink_trade".to_string(),
            server: net_server(ServerType::SinkNet, "17891"),
        }],
        task_graph: TaskGraph::new(
            vec![
                TaskNode::new(src.clone(), TaskKind::Source),
                TaskNode::new(pump.clone(), TaskKind::Pump),
                TaskNode::new(sink.clone(), TaskKind::Sink),
            ],
            vec![
                Edge::new(src, pump.clone(), QueueKind::Row),
                Edge::new(pump, sink, QueueKind::Row),
            ],
        ),
    }
}

#[test]
fn test_single_row_reaches_the_sink_under_default_config() {
    let config = default_config();
    let mut executor = TaskExecutor::new(&config);
    let pd = fx_pipeline();

    // pipeline update under the exclusive grant: registers the servers,
    // resets the queues to the new edges, publishes the event
    let guard = executor.pipeline_update_lock().unwrap();
    let mut bus = EventQueue::new();
    executor.update_pipeline(&guard, &pd, &mut bus).unwrap();
    assert_eq!(bus.poll(), Some(Event::UpdatePipeline));

    // one source row arrives
    let stream = StreamModel::new(
        StreamName::new("source_trade".to_string()),
        vec![
            ColumnDef::new(ColumnName::new("ts".to_string()), SqlType::Timestamp, false, true),
            ColumnDef::new(ColumnName::new("amount".to_string()), SqlType::Integer, false, false),
        ],
    );
    let obj = JsonObject::new(vec![
        JsonField {
            name: "ts".to_string(),
            value: JsonValue::Text { s: "2020-01-01 00:00:00.000000000".to_string() },
        },
        JsonField { name: "amount".to_string(), value: JsonValue::Integer { v: 10 } },
    ]);
    let server = FifoInputServer::new_fifo_batch(vec![obj]);
    let mut source_pump = ForeignInputPump::new(server, stream);
    let row = source_pump._collect_next().unwrap();

    // source task -> pump task -> sink task, one step each
    let pump_task = task("pu_passthrough");
    let sink_task = task("tg_sink_trade");
    source_pump
        ._emit(row.clone(), &mut executor.repos.row_queue_repository, &[pump_task.clone()])
        .unwrap();
    let through_pump = executor.repos.row_queue_repository.collect_next(&pump_task).unwrap();
    executor.repos.row_queue_repository.emit(through_pump, &[sink_task.clone()]).unwrap();
    let at_sink = executor.repos.row_queue_repository.collect_next(&sink_task).unwrap();

    let expected = Row::new(vec![
        RowField::new(
            ColumnName::new("ts".to_string()),
            SqlValue::Timestamp {
                t: SpringTimestamp::parse("2020-01-01 00:00:00.000000000".to_string()).unwrap(),
            },
        ),
        RowField::new(ColumnName::new("amount".to_string()), SqlValue::Integer { v: 10 }),
    ]);
    assert_eq!(at_sink, expected);
}

#[test]
fn test_open_and_close_stop_every_worker() {
    // open with no DDL, then close: every worker is told to stop
    let config = default_config();
    let mut executor = TaskExecutor::new(&config);
    assert_eq!(executor.generic_worker_pool.workers.len(), 1);
    assert_eq!(executor.source_worker_pool.workers.len(), 1);
    assert!(!executor.generic_worker_pool.workers[0].handle.stopped);
    assert!(!executor.source_worker_pool.workers[0].handle.stopped);

    let guard = executor.pipeline_update_lock().unwrap();
    executor.cleanup(&guard, &TaskGraph::new(vec![], vec![]));
    assert!(executor.source_worker_pool.workers[0].handle.stopped);
    assert!(executor.generic_worker_pool.workers[0].handle.stopped);
}

#[test]
fn test_register_is_idempotent_and_refuses_conflicts() {
    let config = default_config();
    let mut executor = TaskExecutor::new(&config);
    let pd = fx_pipeline();
    let guard = executor.pipeline_update_lock().unwrap();
    let mut bus = EventQueue::new();
    executor.update_pipeline(&guard, &pd, &mut bus).unwrap();
    // the same snapshot again: same names, same configurations
    executor.update_pipeline(&guard, &pd, &mut bus).unwrap();
    assert_eq!(executor.repos.source_reader_repository.items.len(), 1);
    assert_eq!(executor.repos.sink_writer_repository.items.len(), 1);
    assert_eq!(bus.poll(), Some(Event::UpdatePipeline));
    assert_eq!(bus.poll(), Some(Event::UpdatePipeline));
    assert_eq!(bus.poll(), None);

    // the same reader name bound to another endpoint is refused; the queues
    // and the bus stay untouched
    let conflicting = PipelineDerivatives {
        all_sources: vec![NamedServer {
            name: "tcp_trade".to_string(),
            server: net_server(ServerType::SourceNet, "19999"),
        }],
        all_sinks: vec![],
        task_graph: TaskGraph::new(vec![], vec![]),
    };
    assert!(matches!(
        executor.update_pipeline(&guard, &conflicting, &mut bus).unwrap_err(),
        SpringError::Sql { .. }
    ));
    assert_eq!(bus.poll(), None);
    assert_eq!(executor.repos.source_reader_repository.items.len(), 1);
}

#[test]
fn test_update_resets_queues_to_the_new_edges() {
    // an in-flight row of the old pipeline never appears under the new one
    let config = default_config();
    let mut executor = TaskExecutor::new(&config);
    let pd = fx_pipeline();
    let guard = executor.pipeline_update_lock().unwrap();
    let mut bus = EventQueue::new();
    executor.update_pipeline(&guard, &pd, &mut bus).unwrap();

    let pump_task = task("pu_passthrough");
    let row = Row::new(vec![RowField::new(
        ColumnName::new("amount".to_string()),
        SqlValue::Integer { v: 1 },
    )]);
    executor.repos.row_queue_repository.emit(row, &[pump_task.clone()]).unwrap();

    // the update replaces the pump while the row is in flight
    executor.update_pipeline(&guard, &pd, &mut bus).unwrap();
    assert!(matches!(
        executor.repos.row_queue_repository.collect_next(&pump_task).unwrap_err(),
        SpringError::InputTimeout
    ));
}

#[test]
fn test_exclusive_grant_excludes_task_execution() {
    let mut lock = TaskExecutorLock::new();
    let g1 = lock.task_execution().unwrap();
    // a worker is mid-step: the update must wait
    assert!(lock.pipeline_update().is_none());
    lock.release_task_execution(g1);
    let upd = lock.pipeline_update().unwrap();
    // the update holds the lock: no worker may start a step
    assert!(lock.task_execution().is_none());
    lock.release_pipeline_update(upd);
    let g2 = lock.task_execution().unwrap();
    lock.release_task_execution(g2);
}

#[test]
fn test_flow_efficient_prefers_shortest_downstream_queue() {
    let metrics = vec![
        TaskMetric { task: task("a"), queue_len: 4 },
        TaskMetric { task: task("b"), queue_len: 1 },
        TaskMetric { task: task("c"), queue_len: 1 },
    ];
    assert_eq!(flow_efficient_next(&metrics), Some(1));
    assert_eq!(flow_efficient_next(&Vec::new()), None);
}

#[test]
fn test_memory_reducing_prefers_longest_upstream_queue() {
    let metrics = vec![
        TaskMetric { task: task("a"), queue_len: 4 },
        TaskMetric { task: task("b"), queue_len: 9 },
        TaskMetric { task: task("c"), queue_len: 9 },
    ];
    assert_eq!(memory_reducing_next(&metrics), Some(1));
    assert_eq!(memory_reducing_next(&Vec::new()), None);
}

#[test]
fn test_source_scheduler_round_robins() {
    assert_eq!(source_next(3, 0), Some(1));
    assert_eq!(source_next(3, 1), Some(2));
    assert_eq!(source_next(3, 2), Some(0));
    assert_eq!(source_next(0, 0), None);
}

#[test]
fn test_generic_worker_swaps_scheduler_on_event() {
    let mut w = GenericWorker::new();
    assert_eq!(w.handle.scheduler, SchedulerKind::FlowEfficient);
    w.handle_event(&Event::UpdateScheduler { kind: SchedulerKind::MemoryReducing });
    assert_eq!(w.handle.scheduler, SchedulerKind::MemoryReducing);
    assert!(!w.handle.stopped);
    w.handle_event(&Event::ReportMetricsSummary { used_percent: 3 });
    assert_eq!(w.handle.scheduler, SchedulerKind::MemoryReducing);
    w.handle_event(&Event::Stop);
    assert!(w.handle.stopped);
}

#[test]
fn test_graph_query_methods() {
    let pd = fx_pipeline();
    let g = pd.task_graph();
    let rows = g.row_queues();
    assert_eq!(rows.len(), 2);
    assert_eq!(rows[0], task("pu_passthrough"));
    assert_eq!(rows[1], task("tg_sink_trade"));
    assert_eq!(g.window_queues().len(), 0);
    let sources = g.source_tasks();
    assert_eq!(sources.len(), 1);
    assert_eq!(sources[0], task("tg_source_trade"));
    let downstream = g.downstream_of(&task("tg_source_trade"));
    assert_eq!(downstream.len(), 1);
    assert_eq!(downstream[0], task("pu_passthrough"));
}
