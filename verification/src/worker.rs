//! Worker pools: the long-lived executors of tasks.
//!
//! A worker loops: take a shared execution grant, ask its scheduler for the
//! next task, execute one step, then poll the event bus and swap its
//! scheduler or exit. The thread itself and its blocking I/O live in the
//! host layer; this module holds the worker's state and its decisions, so
//! that one loop step is a function of state and event.

use vstd::prelude::*;

use crate::event_queue::Event;
use crate::scheduler::SchedulerKind;
use crate::scheduler::TaskMetric;
use crate::scheduler::flow_efficient_next;
use crate::scheduler::memory_reducing_next;

verus! {

/// The state a worker thread carries between steps.
pub struct WorkerHandle {
    /// The scheduler the worker currently runs.
    pub scheduler: SchedulerKind,
    /// True once a Stop event was seen; the loop exits before the next step.
    pub stopped: bool,
}

impl WorkerHandle {
    pub fn new(scheduler: SchedulerKind) -> (r: Self)
        ensures
            r.scheduler == scheduler,
            !r.stopped,
    {
        WorkerHandle { scheduler, stopped: false }
    }
}

/// Worker executing pump and sink tasks.
pub struct GenericWorker {
    pub handle: WorkerHandle,
}

impl GenericWorker {
    /// A fresh generic worker; in the initial Moderate state it runs the
    /// FlowEfficient scheduler.
    pub fn new() -> (r: Self)
        ensures
            r.handle.scheduler == SchedulerKind::FlowEfficient,
            !r.handle.stopped,
    {
        GenericWorker { handle: WorkerHandle::new(SchedulerKind::FlowEfficient) }
    }

    /// One event-bus checkpoint: swap the scheduler or stop; everything
    /// else leaves the worker unchanged.
    pub fn handle_event(&mut self, event: &Event)
        ensures
            match *event {
                Event::UpdateScheduler { kind } => final(self).handle.scheduler == kind && final(self).handle.stopped == old(self).handle.stopped,
                Event::Stop => final(self).handle.stopped && final(self).handle.scheduler == old(self).handle.scheduler,
                _ => final(self).handle == old(self).handle,
            },
    {
        match event {
            Event::UpdateScheduler { kind } => {
                self.handle.scheduler = *kind;
            },
            Event::Stop => {
                self.handle.stopped = true;
            },
            _ => {},
        }
    }

    /// Ask the bound scheduler for the next task among the runnable ones
    /// (handed in deterministic task-id order with their queue lengths).
    pub fn next_task(&self, metrics: &Vec<TaskMetric>) -> (r: Option<usize>)
        requires
            self.handle.scheduler != SchedulerKind::Source,
        ensures
            (r is None) == (metrics@.len() == 0),
            r matches Some(i) ==> i < metrics@.len(),
            self.handle.scheduler == SchedulerKind::FlowEfficient ==> (r matches Some(i)
                ==> (forall|j: int|
                0 <= j < metrics@.len() ==> metrics@[i as int]@.queue_len
                    <= #[trigger] metrics@[j]@.queue_len)),
            self.handle.scheduler == SchedulerKind::MemoryReducing ==> (r matches Some(i)
                ==> (forall|j: int|
                0 <= j < metrics@.len() ==> metrics@[i as int]@.queue_len
                    >= #[trigger] metrics@[j]@.queue_len)),
    {
        match self.handle.scheduler {
            SchedulerKind::FlowEfficient => flow_efficient_next(metrics),
            SchedulerKind::MemoryReducing => memory_reducing_next(metrics),
            SchedulerKind::Source => {
                proof {
                    assert(false);
                }
                None
            },
        }
    }
}

/// Worker collecting rows from foreign sources.
pub struct SourceWorker {
    pub handle: WorkerHandle,
}

impl SourceWorker {
    pub fn new() -> (r: Self)
        ensures
            r.handle.scheduler == SchedulerKind::Source,
            !r.handle.stopped,
    {
        SourceWorker { handle: WorkerHandle::new(SchedulerKind::Source) }
    }

    /// Source workers react only to Stop: their scheduler never changes.
    pub fn handle_event(&mut self, event: &Event)
        ensures
            final(self).handle.scheduler == old(self).handle.scheduler,
            final(self).handle.stopped == (old(self).handle.stopped || *event is Stop),
    {
        match event {
            Event::Stop => {
                self.handle.stopped = true;
            },
            _ => {},
        }
    }
}

/// The fixed-size pool of generic workers.
pub struct GenericWorkerPool {
    pub workers: Vec<GenericWorker>,
}

impl GenericWorkerPool {
    pub fn new(n_generic_worker_threads: u16) -> (r: Self)
        ensures
            r.workers@.len() == n_generic_worker_threads,
            forall|i: int|
                0 <= i < r.workers@.len() ==> (#[trigger] r.workers@[i].handle).scheduler
                    == SchedulerKind::FlowEfficient && !r.workers@[i].handle.stopped,
    {
        let mut workers: Vec<GenericWorker> = Vec::new();
        let mut i: u16 = 0;
        while i < n_generic_worker_threads
            invariant
                i <= n_generic_worker_threads,
                workers@.len() == i,
                forall|j: int|
                    0 <= j < workers@.len() ==> (#[trigger] workers@[j].handle).scheduler
                        == SchedulerKind::FlowEfficient && !workers@[j].handle.stopped,
            decreases n_generic_worker_threads - i,
        {
            workers.push(GenericWorker::new());
            i += 1;
        }
        GenericWorkerPool { workers }
    }
}

impl GenericWorkerPool {
    /// Tell every worker to exit before its next step.
    pub fn stop_all(&mut self)
        ensures
            final(self).workers@.len() == old(self).workers@.len(),
            forall|i: int|
                0 <= i < final(self).workers@.len() ==> (#[trigger] final(self).workers@[i].handle).stopped && final(self).workers@[i].handle.scheduler == old(self).workers@[i].handle.scheduler,
    {
        let ghost base = self.workers@;
        let mut i: usize = 0;
        while i < self.workers.len()
            invariant
                i <= self.workers@.len(),
                self.workers@.len() == base.len(),
                forall|j: int|
                    i <= j < self.workers@.len() ==> #[trigger] self.workers@[j] == base[j],
                forall|j: int|
                    0 <= j < i ==> (#[trigger] self.workers@[j].handle).stopped
                        && self.workers@[j].handle.scheduler == base[j].handle.scheduler,
            decreases self.workers.len() - i,
        {
            self.workers[i].handle.stopped = true;
            i += 1;
        }
    }
}

/// The fixed-size pool of source workers.
pub struct SourceWorkerPool {
    pub workers: Vec<SourceWorker>,
}

impl SourceWorkerPool {
    pub fn new(n_source_worker_threads: u16) -> (r: Self)
        ensures
            r.workers@.len() == n_source_worker_threads,
            forall|i: int|
                0 <= i < r.workers@.len() ==> (#[trigger] r.workers@[i].handle).scheduler
                    == SchedulerKind::Source && !r.workers@[i].handle.stopped,
    {
        let mut workers: Vec<SourceWorker> = Vec::new();
        let mut i: u16 = 0;
        while i < n_source_worker_threads
            invariant
                i <= n_source_worker_threads,
                workers@.len() == i,
                forall|j: int|
                    0 <= j < workers@.len() ==> (#[trigger] workers@[j].handle).scheduler
                        == SchedulerKind::Source && !workers@[j].handle.stopped,
            decreases n_source_worker_threads - i,
        {
            workers.push(SourceWorker::new());
            i += 1;
        }
        SourceWorkerPool { workers }
    }

    /// Tell every worker to exit before its next step. Source workers stop
    /// first, so that generic workers can drain what remains in the queues.
    pub fn stop_all(&mut self)
        ensures
            final(self).workers@.len() == old(self).workers@.len(),
            forall|i: int|
                0 <= i < final(self).workers@.len() ==> (#[trigger] final(self).workers@[i].handle).stopped && final(self).workers@[i].handle.scheduler == old(self).workers@[i].handle.scheduler,
    {
        let ghost base = self.workers@;
        let mut i: usize = 0;
        while i < self.workers.len()
            invariant
                i <= self.workers@.len(),
                self.workers@.len() == base.len(),
                forall|j: int|
                    i <= j < self.workers@.len() ==> #[trigger] self.workers@[j] == base[j],
                forall|j: int|
                    0 <= j < i ==> (#[trigger] self.workers@[j].handle).stopped
                        && self.workers@[j].handle.scheduler == base[j].handle.scheduler,
            decreases self.workers.len() - i,
        {
            self.workers[i].handle.stopped = true;
            i += 1;
        }
    }
}

} // verus!
