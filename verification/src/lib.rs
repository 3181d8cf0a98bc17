//! Core of an embeddable streaming SQL engine.
//!
//! Users declare a dataflow pipeline (source streams, pumps, sink streams);
//! the engine pulls rows from external sources, evaluates continuous queries,
//! and pushes results to external sinks under a bounded memory budget.
//!
//! This crate holds the verified core: the row and schema model, the bounded
//! row queues between tasks, the reader/writer registries, the task executor
//! with its pipeline-update protocol, the memory-pressure state machine, and
//! the SELECT-field resolution used by the query planner. External I/O (TCP
//! readers and writers, worker threads) lives outside, behind the plain-value
//! interfaces this crate exposes.

pub mod config;
pub mod error;
pub mod event_queue;
pub mod expression;
pub mod foreign_input;
pub mod insert_plan;
pub mod json;
pub mod memory_state_machine;
pub mod name;
pub mod projection;
pub mod query_plan_operation;
pub mod row;
pub mod row_repository;
pub mod scheduler;
pub mod select_syntax_analyzer;
pub mod server_model;
pub mod stream_model;
pub mod task;
pub mod task_executor;
pub mod text;
pub mod toml_read;
pub mod value;
pub mod worker;
