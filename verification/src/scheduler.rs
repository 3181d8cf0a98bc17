//! Schedulers: choose the next runnable task for a worker.
//!
//! A scheduler is a pure function of the task graph and the current
//! queue-length metrics; it holds no state that survives a task step.
//! Callers hand the runnable tasks in deterministic task-id order, and ties
//! break toward the earliest entry, which keeps the choice deterministic.

use vstd::prelude::*;

use crate::task::TaskId;

verus! {

/// Which scheduling discipline a worker runs.
#[derive(Clone, Copy, PartialEq, Eq, Structural, Debug)]
pub enum SchedulerKind {
    /// Round-robin over source tasks.
    Source,
    /// Advance rows toward sinks: shortest downstream queue first.
    FlowEfficient,
    /// Reclaim memory: longest upstream queue first.
    MemoryReducing,
}

/// Mathematical model of a [`TaskMetric`].
pub struct TaskMetricModel {
    pub task: Seq<char>,
    pub queue_len: u64,
}

/// One runnable task with the queue length that drives its priority.
#[derive(Debug)]
pub struct TaskMetric {
    pub task: TaskId,
    pub queue_len: u64,
}

impl View for TaskMetric {
    type V = TaskMetricModel;

    open spec fn view(&self) -> TaskMetricModel {
        TaskMetricModel { task: self.task@, queue_len: self.queue_len }
    }
}

/// FlowEfficient choice: the index of the entry with the shortest queue,
/// earliest entry on ties; nothing when no task is runnable.
pub fn flow_efficient_next(metrics: &Vec<TaskMetric>) -> (r: Option<usize>)
    ensures
        match r {
            Some(i) => {
                &&& i < metrics@.len()
                &&& forall|j: int|
                    0 <= j < metrics@.len() ==> metrics@[i as int]@.queue_len
                        <= #[trigger] metrics@[j]@.queue_len
                &&& forall|j: int|
                    0 <= j < i ==> metrics@[i as int]@.queue_len < #[trigger] metrics@[j]@.queue_len
            },
            None => metrics@.len() == 0,
        },
{
    if metrics.len() == 0 {
        return None;
    }
    let mut best: usize = 0;
    let mut j: usize = 1;
    while j < metrics.len()
        invariant
            best < j <= metrics@.len(),
            forall|k: int|
                0 <= k < j ==> metrics@[best as int]@.queue_len <= #[trigger] metrics@[k]@.queue_len,
            forall|k: int|
                0 <= k < best ==> metrics@[best as int]@.queue_len < #[trigger] metrics@[k]@.queue_len,
        decreases metrics.len() - j,
    {
        if metrics[j].queue_len < metrics[best].queue_len {
            best = j;
        }
        j += 1;
    }
    Some(best)
}

/// MemoryReducing choice: the index of the entry with the longest queue,
/// earliest entry on ties; nothing when no task is runnable.
pub fn memory_reducing_next(metrics: &Vec<TaskMetric>) -> (r: Option<usize>)
    ensures
        match r {
            Some(i) => {
                &&& i < metrics@.len()
                &&& forall|j: int|
                    0 <= j < metrics@.len() ==> metrics@[i as int]@.queue_len
                        >= #[trigger] metrics@[j]@.queue_len
                &&& forall|j: int|
                    0 <= j < i ==> metrics@[i as int]@.queue_len > #[trigger] metrics@[j]@.queue_len
            },
            None => metrics@.len() == 0,
        },
{
    if metrics.len() == 0 {
        return None;
    }
    let mut best: usize = 0;
    let mut j: usize = 1;
    while j < metrics.len()
        invariant
            best < j <= metrics@.len(),
            forall|k: int|
                0 <= k < j ==> metrics@[best as int]@.queue_len >= #[trigger] metrics@[k]@.queue_len,
            forall|k: int|
                0 <= k < best ==> metrics@[best as int]@.queue_len > #[trigger] metrics@[k]@.queue_len,
        decreases metrics.len() - j,
    {
        if metrics[j].queue_len > metrics[best].queue_len {
            best = j;
        }
        j += 1;
    }
    Some(best)
}

/// Round-robin choice of the source scheduler: the task after `last`, and
/// the first task when `last` was the final one (or out of range).
pub fn source_next(n_sources: usize, last: usize) -> (r: Option<usize>)
    ensures
        match r {
            Some(i) => {
                &&& n_sources > 0
                &&& i < n_sources
                &&& i == (if last + 1 < n_sources {
                    last + 1
                } else {
                    0
                })
            },
            None => n_sources == 0,
        },
{
    if n_sources == 0 {
        return None;
    }
    if last < n_sources - 1 {
        Some(last + 1)
    } else {
        Some(0)
    }
}

} // verus!
