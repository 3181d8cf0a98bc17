//! The task executor: repositories, the executor lock, and the pipeline
//! update protocol.
//!
//! Workers hold shared grants on the executor lock while they execute a
//! step; a pipeline update takes the exclusive grant, and under it registers
//! the new readers and writers, resets the queue repositories to the new
//! graph's edges, and publishes `UpdatePipeline` on the bus. No worker can
//! hold a grant while the exclusive grant is held, so no worker ever
//! observes a graph whose edges and queues disagree.

use vstd::prelude::*;

use crate::config::SpringConfig;
use crate::error::SpringError;
use crate::event_queue::Event;
use crate::event_queue::EventQueue;
use crate::scheduler::SchedulerKind;
use crate::row_repository::NaiveRowRepository;
use crate::row_repository::QueueModel;
use crate::server_model::ServerModel;
use crate::server_model::ServerModelModel;
use crate::task::QueueKind;
use crate::task::TaskGraph;
use crate::task::TaskGraphModel;
use crate::task::queue_consumers;
use crate::worker::GenericWorkerPool;
use crate::worker::SourceWorkerPool;

verus! {

// ---------------------------------------------------------------------------
// The executor lock.
// ---------------------------------------------------------------------------

/// Witness of the exclusive (pipeline-update) grant.
pub struct PipelineUpdateLockGuard {
    granted: (),
}

/// Witness of one shared (task-execution) grant.
pub struct TaskExecutionLockGuard {
    granted: (),
}

/// Reader/writer-style coordination of workers and pipeline updates:
/// workers hold shared grants during a task step; an update requires the
/// exclusive grant. The blocking wait for a grant is the caller's retry
/// loop; refusal here is immediate.
pub struct TaskExecutorLock {
    pub shared_grants: u64,
    pub exclusive_held: bool,
}

impl TaskExecutorLock {
    /// Never both an exclusive grant and a shared grant out at once.
    pub open spec fn wf(&self) -> bool {
        !(self.exclusive_held && self.shared_grants > 0)
    }

    pub fn new() -> (r: Self)
        ensures
            r.wf(),
            !r.exclusive_held,
            r.shared_grants == 0,
    {
        TaskExecutorLock { shared_grants: 0, exclusive_held: false }
    }

    /// Take the exclusive grant; refused while any grant is out.
    pub fn pipeline_update(&mut self) -> (r: Option<PipelineUpdateLockGuard>)
        requires
            old(self).wf(),
        ensures
            final(self).wf(),
            (r is Some) == (old(self).shared_grants == 0 && !old(self).exclusive_held),
            r is Some ==> final(self).exclusive_held && final(self).shared_grants == 0,
            r is None ==> *final(self) == *old(self),
    {
        if self.shared_grants == 0 && !self.exclusive_held {
            self.exclusive_held = true;
            Some(PipelineUpdateLockGuard { granted: () })
        } else {
            None
        }
    }

    /// Give the exclusive grant back.
    pub fn release_pipeline_update(&mut self, guard: PipelineUpdateLockGuard)
        requires
            old(self).wf(),
            old(self).exclusive_held,
        ensures
            final(self).wf(),
            !final(self).exclusive_held,
            final(self).shared_grants == old(self).shared_grants,
    {
        let PipelineUpdateLockGuard { granted: _ } = guard;
        self.exclusive_held = false;
    }

    /// Take one shared grant; refused while the exclusive grant is out.
    pub fn task_execution(&mut self) -> (r: Option<TaskExecutionLockGuard>)
        requires
            old(self).wf(),
            old(self).shared_grants < u64::MAX,
        ensures
            final(self).wf(),
            (r is Some) == !old(self).exclusive_held,
            r is Some ==> final(self).shared_grants == old(self).shared_grants + 1 && !final(self).exclusive_held,
            r is None ==> *final(self) == *old(self),
    {
        if self.exclusive_held {
            None
        } else {
            self.shared_grants = self.shared_grants + 1;
            Some(TaskExecutionLockGuard { granted: () })
        }
    }

    /// Give one shared grant back.
    pub fn release_task_execution(&mut self, guard: TaskExecutionLockGuard)
        requires
            old(self).wf(),
            old(self).shared_grants > 0,
        ensures
            final(self).wf(),
            final(self).shared_grants == old(self).shared_grants - 1,
            final(self).exclusive_held == old(self).exclusive_held,
    {
        let TaskExecutionLockGuard { granted: _ } = guard;
        self.shared_grants = self.shared_grants - 1;
    }
}

/// Law (update atomicity): while the exclusive pipeline-update grant is
/// held, no worker holds a task-execution grant — no worker executes a step
/// while the graph and the queues are being swapped.
pub proof fn lemma_pipeline_update_is_exclusive(lock: TaskExecutorLock)
    requires
        lock.wf(),
        lock.exclusive_held,
    ensures
        lock.shared_grants == 0,
{
}

// ---------------------------------------------------------------------------
// Reader / writer registries.
// ---------------------------------------------------------------------------

/// Mathematical model of a [`NamedServer`].
pub struct NamedServerModel {
    pub name: Seq<char>,
    pub server: ServerModelModel,
}

/// A foreign server configuration registered under a name.
#[derive(Debug)]
pub struct NamedServer {
    pub name: String,
    pub server: ServerModel,
}

impl View for NamedServer {
    type V = NamedServerModel;

    open spec fn view(&self) -> NamedServerModel {
        NamedServerModel { name: self.name@, server: self.server@ }
    }
}

impl Clone for NamedServer {
    fn clone(&self) -> (r: Self)
        ensures
            r@ == self@,
    {
        NamedServer { name: self.name.clone(), server: self.server.clone() }
    }
}

/// What registering one item does: nothing when the name is already there
/// with the same configuration, an append when the name is new, and a
/// refusal when the name is there with a different configuration.
pub open spec fn spec_register(reg: Seq<NamedServerModel>, item: NamedServerModel) -> Option<
    Seq<NamedServerModel>,
>
    decreases reg.len(),
{
    if reg.len() == 0 {
        Option::Some(seq![item])
    } else if reg[0].name == item.name {
        if reg[0].server == item.server {
            Option::Some(reg)
        } else {
            Option::None
        }
    } else {
        match spec_register(reg.drop_first(), item) {
            Option::Some(rest) => Option::Some(seq![reg[0]] + rest),
            Option::None => Option::None,
        }
    }
}

/// A sequence of registrations, first refusal wins.
pub open spec fn spec_register_all(
    reg: Seq<NamedServerModel>,
    items: Seq<NamedServerModel>,
) -> Option<Seq<NamedServerModel>>
    decreases items.len(),
{
    if items.len() == 0 {
        Option::Some(reg)
    } else {
        match spec_register(reg, items[0]) {
            Option::Some(reg2) => spec_register_all(reg2, items.drop_first()),
            Option::None => Option::None,
        }
    }
}

proof fn lemma_register_skip(reg: Seq<NamedServerModel>, item: NamedServerModel, i: int)
    requires
        0 <= i <= reg.len(),
        forall|j: int| 0 <= j < i ==> (#[trigger] reg[j].name) != item.name,
    ensures
        spec_register(reg, item) == (match spec_register(reg.skip(i), item) {
            Option::Some(rest) => Option::Some(reg.take(i) + rest),
            Option::None => Option::None,
        }),
    decreases i,
{
    if i == 0 {
        assert(reg.skip(0) =~= reg);
        match spec_register(reg, item) {
            Option::Some(rest) => {
                assert(reg.take(0) + rest =~= rest);
            },
            Option::None => {},
        }
    } else {
        assert(reg.len() > 0);
        assert(reg[0].name != item.name);
        let t = reg.drop_first();
        assert forall|j: int| 0 <= j < i - 1 implies (#[trigger] t[j].name) != item.name by {
            assert(t[j] == reg[j + 1]);
        }
        lemma_register_skip(t, item, i - 1);
        assert(t.skip(i - 1) =~= reg.skip(i));
        match spec_register(reg.skip(i), item) {
            Option::Some(rest) => {
                assert(seq![reg[0]] + (t.take(i - 1) + rest) =~= reg.take(i) + rest);
            },
            Option::None => {},
        }
    }
}

proof fn lemma_register_all_push(
    reg: Seq<NamedServerModel>,
    items: Seq<NamedServerModel>,
    x: NamedServerModel,
)
    ensures
        spec_register_all(reg, items.push(x)) == (match spec_register_all(reg, items) {
            Option::Some(r2) => spec_register(r2, x),
            Option::None => Option::None,
        }),
    decreases items.len(),
{
    if items.len() == 0 {
        assert(items.push(x).len() == 1);
        assert(items.push(x)[0] == x);
        assert(items.push(x).drop_first() =~= Seq::<NamedServerModel>::empty());
        assert(spec_register_all(reg, items) == Option::Some(reg));
        match spec_register(reg, x) {
            Option::Some(r2) => {
                assert(spec_register_all(reg, items.push(x)) == spec_register_all(
                    r2,
                    items.push(x).drop_first(),
                ));
                assert(spec_register_all(r2, items.push(x).drop_first()) == Option::Some(r2));
            },
            Option::None => {
                assert(spec_register_all(reg, items.push(x)) is None);
            },
        }
    } else {
        assert(items.push(x)[0] == items[0]);
        assert(items.push(x).drop_first() =~= items.drop_first().push(x));
        match spec_register(reg, items[0]) {
            Option::Some(r2) => {
                lemma_register_all_push(r2, items.drop_first(), x);
                assert(spec_register_all(reg, items.push(x)) == spec_register_all(
                    r2,
                    items.drop_first().push(x),
                ));
                assert(spec_register_all(reg, items) == spec_register_all(
                    r2,
                    items.drop_first(),
                ));
            },
            Option::None => {
                assert(spec_register_all(reg, items.push(x)) is None);
                assert(spec_register_all(reg, items) is None);
            },
        }
    }
}

/// Registry of live foreign server configurations, keyed by name.
pub struct ServerRegistry {
    pub items: Vec<NamedServer>,
}

impl View for ServerRegistry {
    type V = Seq<NamedServerModel>;

    open spec fn view(&self) -> Seq<NamedServerModel> {
        self.items@.map_values(|s: NamedServer| s@)
    }
}

impl ServerRegistry {
    pub fn new() -> (r: Self)
        ensures
            r@ == Seq::<NamedServerModel>::empty(),
    {
        let r = ServerRegistry { items: Vec::new() };
        proof {
            assert(r@ =~= Seq::<NamedServerModel>::empty());
        }
        r
    }

    /// Register `item`; idempotent on name equality.
    ///
    /// # Failures
    ///
    /// - `SpringError::Sql` when the name is already registered with a
    ///   different configuration.
    pub fn register(&mut self, item: NamedServer) -> (r: Result<(), SpringError>)
        ensures
            match r {
                Ok(()) => spec_register(old(self)@, item@) == Option::Some(final(self)@),
                Err(e) => spec_register(old(self)@, item@) is None && final(self)@ == old(self)@
                    && e matches SpringError::Sql { .. },
            },
    {
        let ghost base = self@;
        let mut i: usize = 0;
        while i < self.items.len()
            invariant
                i <= self.items@.len(),
                base == self@,
                forall|j: int| 0 <= j < i ==> (#[trigger] self@[j].name) != item@.name,
            decreases self.items.len() - i,
        {
            if self.items[i].name == item.name {
                proof {
                    lemma_register_skip(base, item@, i as int);
                    assert(base.skip(i as int)[0] == base[i as int]);
                }
                if self.items[i].server.eq_model(&item.server) {
                    proof {
                        assert(spec_register(base.skip(i as int), item@) == Option::Some(
                            base.skip(i as int),
                        ));
                        assert(base.take(i as int) + base.skip(i as int) =~= base);
                    }
                    return Ok(());
                } else {
                    proof {
                        assert(spec_register(base.skip(i as int), item@) is None);
                    }
                    return Err(
                        SpringError::Sql {
                            msg: "server already registered with a different configuration".to_owned(),
                        },
                    );
                }
            }
            i += 1;
        }
        proof {
            lemma_register_skip(base, item@, base.len() as int);
            assert(base.skip(base.len() as int) =~= Seq::<NamedServerModel>::empty());
            assert(spec_register(base.skip(base.len() as int), item@) == Option::Some(
                seq![item@],
            ));
        }
        let ghost prev = self@;
        self.items.push(item);
        proof {
            assert(self@ =~= prev.push(item@));
            assert(base.take(base.len() as int) + seq![item@] =~= base.push(item@));
        }
        Ok(())
    }
}

// ---------------------------------------------------------------------------
// Repositories and the executor.
// ---------------------------------------------------------------------------

/// All the shared stores the workers act on.
pub struct Repositories {
    pub row_queue_repository: NaiveRowRepository,
    pub window_queue_repository: NaiveRowRepository,
    pub source_reader_repository: ServerRegistry,
    pub sink_writer_repository: ServerRegistry,
}

impl Repositories {
    /// Fresh, empty stores. The configuration is what sizes the queues'
    /// surroundings (timeouts, memory bounds); the stores themselves start
    /// empty.
    pub fn new(_config: &SpringConfig) -> (r: Self)
        ensures
            r.row_queue_repository@ == Seq::<QueueModel>::empty(),
            r.window_queue_repository@ == Seq::<QueueModel>::empty(),
            r.source_reader_repository@ == Seq::<NamedServerModel>::empty(),
            r.sink_writer_repository@ == Seq::<NamedServerModel>::empty(),
    {
        Repositories {
            row_queue_repository: Default::default(),
            window_queue_repository: Default::default(),
            source_reader_repository: ServerRegistry::new(),
            sink_writer_repository: ServerRegistry::new(),
        }
    }
}

/// The planner's output, delivered to the executor as one atomic snapshot:
/// the declared foreign servers and the task graph derived from the
/// pipeline.
pub struct PipelineDerivatives {
    pub all_sources: Vec<NamedServer>,
    pub all_sinks: Vec<NamedServer>,
    pub task_graph: TaskGraph,
}

impl PipelineDerivatives {
    pub fn task_graph(&self) -> (r: &TaskGraph)
        ensures
            r@ == self.task_graph@,
    {
        &self.task_graph
    }
}

/// Queue consumers are distinct per queue kind: every edge has its own
/// queue.
pub open spec fn graph_queues_distinct(g: TaskGraphModel) -> bool {
    &&& (forall|i: int, j: int|
        0 <= i < j < queue_consumers(g, QueueKind::Row).len() ==> queue_consumers(
            g,
            QueueKind::Row,
        )[i] != queue_consumers(g, QueueKind::Row)[j])
    &&& (forall|i: int, j: int|
        0 <= i < j < queue_consumers(g, QueueKind::Window).len() ==> queue_consumers(
            g,
            QueueKind::Window,
        )[i] != queue_consumers(g, QueueKind::Window)[j])
}

/// Agreement of queues and graph: one queue per row-queue edge and one per
/// window-queue edge, in edge order — what every worker must observe.
pub open spec fn repos_match_graph(
    row: Seq<QueueModel>,
    window: Seq<QueueModel>,
    g: TaskGraphModel,
) -> bool {
    &&& row.len() == queue_consumers(g, QueueKind::Row).len()
    &&& (forall|i: int|
        0 <= i < row.len() ==> #[trigger] row[i].task == queue_consumers(g, QueueKind::Row)[i])
    &&& window.len() == queue_consumers(g, QueueKind::Window).len()
    &&& (forall|i: int|
        0 <= i < window.len() ==> #[trigger] window[i].task == queue_consumers(
            g,
            QueueKind::Window,
        )[i])
}

/// Executes the task graph's dataflow by worker pools.
///
/// Source tasks are scheduled by the source scheduler; other tasks by the
/// FlowEfficient scheduler (Moderate state) or the MemoryReducing scheduler
/// (Severe and Critical states).
pub struct TaskExecutor {
    pub task_executor_lock: TaskExecutorLock,
    pub repos: Repositories,
    pub generic_worker_pool: GenericWorkerPool,
    pub source_worker_pool: SourceWorkerPool,
}

impl TaskExecutor {
    /// Fresh executor: empty stores, a free lock, and worker pools sized by
    /// the configuration.
    pub fn new(config: &SpringConfig) -> (r: Self)
        ensures
            r.task_executor_lock.wf(),
            !r.task_executor_lock.exclusive_held,
            r.task_executor_lock.shared_grants == 0,
            r.repos.row_queue_repository@ == Seq::<QueueModel>::empty(),
            r.repos.window_queue_repository@ == Seq::<QueueModel>::empty(),
            r.repos.source_reader_repository@ == Seq::<NamedServerModel>::empty(),
            r.repos.sink_writer_repository@ == Seq::<NamedServerModel>::empty(),
            r.generic_worker_pool.workers@.len() == config.worker.n_generic_worker_threads,
            forall|i: int|
                0 <= i < r.generic_worker_pool.workers@.len() ==> (#[trigger] r.generic_worker_pool
                    .workers@[i].handle).scheduler == SchedulerKind::FlowEfficient
                    && !r.generic_worker_pool.workers@[i].handle.stopped,
            r.source_worker_pool.workers@.len() == config.worker.n_source_worker_threads,
            forall|i: int|
                0 <= i < r.source_worker_pool.workers@.len() ==> (#[trigger] r.source_worker_pool
                    .workers@[i].handle).scheduler == SchedulerKind::Source
                    && !r.source_worker_pool.workers@[i].handle.stopped,
    {
        let task_executor_lock = TaskExecutorLock::new();
        let repos = Repositories::new(config);
        TaskExecutor {
            task_executor_lock,
            repos,
            generic_worker_pool: GenericWorkerPool::new(config.worker.n_generic_worker_threads),
            source_worker_pool: SourceWorkerPool::new(config.worker.n_source_worker_threads),
        }
    }

    /// Acquire the exclusive grant for a pipeline update; refused while a
    /// worker holds a grant (the caller retries).
    pub fn pipeline_update_lock(&mut self) -> (r: Option<PipelineUpdateLockGuard>)
        requires
            old(self).task_executor_lock.wf(),
        ensures
            final(self).task_executor_lock.wf(),
            final(self).repos == old(self).repos,
            (r is Some) == (old(self).task_executor_lock.shared_grants == 0 && !old(self).task_executor_lock.exclusive_held),
            r is Some ==> final(self).task_executor_lock.exclusive_held,
    {
        self.task_executor_lock.pipeline_update()
    }

    /// Update the workers' current pipeline, atomically for every worker:
    /// register the snapshot's source readers, then its sink writers, reset
    /// both queue repositories to the new graph's edges, and publish
    /// `UpdatePipeline` on the bus. Runs under the exclusive grant, so no
    /// worker observes the half-made state.
    ///
    /// # Failures
    ///
    /// - `SpringError::Sql` when a server name is already registered with a
    ///   different configuration. Registrations made before the failure
    ///   stay; no sink writer is registered when a source reader fails; the
    ///   queues and the bus are untouched.
    pub fn update_pipeline(
        &mut self,
        _lock_guard: &PipelineUpdateLockGuard,
        pipeline_derivatives: &PipelineDerivatives,
        bus: &mut EventQueue,
    ) -> (r: Result<(), SpringError>)
        requires
            graph_queues_distinct(pipeline_derivatives.task_graph@),
        ensures
            final(self).task_executor_lock == old(self).task_executor_lock,
            final(self).generic_worker_pool == old(self).generic_worker_pool,
            final(self).source_worker_pool == old(self).source_worker_pool,
            ({
                let src_items = pipeline_derivatives.all_sources@.map_values(
                    |s: NamedServer| s@,
                );
                let sink_items = pipeline_derivatives.all_sinks@.map_values(|s: NamedServer| s@);
                let old_src = old(self).repos.source_reader_repository@;
                let old_sink = old(self).repos.sink_writer_repository@;
                match r {
                    Ok(()) => {
                        &&& spec_register_all(old_src, src_items) == Option::Some(
                            final(self).repos.source_reader_repository@,
                        )
                        &&& spec_register_all(old_sink, sink_items) == Option::Some(
                            final(self).repos.sink_writer_repository@,
                        )
                        &&& repos_match_graph(
                            final(self).repos.row_queue_repository@,
                            final(self).repos.window_queue_repository@,
                            pipeline_derivatives.task_graph@,
                        )
                        &&& forall|qi: int|
                            0 <= qi < final(self).repos.row_queue_repository@.len() ==> (
                            #[trigger] final(self).repos.row_queue_repository@[qi].rows).len()
                                == 0
                        &&& forall|qi: int|
                            0 <= qi < final(self).repos.window_queue_repository@.len() ==> (
                            #[trigger] final(self).repos.window_queue_repository@[qi].rows).len()
                                == 0
                        &&& final(bus)@ == old(bus)@.push(Event::UpdatePipeline)
                    },
                    Err(e) => {
                        &&& e matches SpringError::Sql { .. }
                        &&& final(self).repos.row_queue_repository@ == old(
                            self,
                        ).repos.row_queue_repository@
                        &&& final(self).repos.window_queue_repository@ == old(
                            self,
                        ).repos.window_queue_repository@
                        &&& final(bus)@ == old(bus)@
                        &&& ({
                            ||| {
                                &&& final(self).repos.sink_writer_repository@ == old_sink
                                &&& exists|k: int|
                                    0 <= k < src_items.len() && #[trigger] spec_register_all(
                                        old_src,
                                        src_items.take(k),
                                    ) == Option::Some(
                                        final(self).repos.source_reader_repository@,
                                    ) && spec_register(
                                        final(self).repos.source_reader_repository@,
                                        src_items[k],
                                    ) is None
                            }
                            ||| {
                                &&& spec_register_all(old_src, src_items) == Option::Some(
                                    final(self).repos.source_reader_repository@,
                                )
                                &&& exists|k: int|
                                    0 <= k < sink_items.len() && #[trigger] spec_register_all(
                                        old_sink,
                                        sink_items.take(k),
                                    ) == Option::Some(
                                        final(self).repos.sink_writer_repository@,
                                    ) && spec_register(
                                        final(self).repos.sink_writer_repository@,
                                        sink_items[k],
                                    ) is None
                            }
                        })
                    },
                }
            }),
    {
        let ghost src_base = self.repos.source_reader_repository@;
        let ghost src_items = pipeline_derivatives.all_sources@.map_values(|s: NamedServer| s@);
        proof {
            assert(src_items.skip(0) =~= src_items);
            assert(src_items.take(0) =~= Seq::<NamedServerModel>::empty());
        }
        let mut i: usize = 0;
        while i < pipeline_derivatives.all_sources.len()
            invariant
                i <= pipeline_derivatives.all_sources@.len(),
                src_items == pipeline_derivatives.all_sources@.map_values(|s: NamedServer| s@),
                spec_register_all(src_base, src_items) == spec_register_all(
                    self.repos.source_reader_repository@,
                    src_items.skip(i as int),
                ),
                spec_register_all(src_base, src_items.take(i as int)) == Option::Some(
                    self.repos.source_reader_repository@,
                ),
                self.task_executor_lock == old(self).task_executor_lock,
                self.generic_worker_pool == old(self).generic_worker_pool,
                self.source_worker_pool == old(self).source_worker_pool,
                self.repos.row_queue_repository@ == old(self).repos.row_queue_repository@,
                self.repos.window_queue_repository@ == old(self).repos.window_queue_repository@,
                self.repos.sink_writer_repository@ == old(self).repos.sink_writer_repository@,
                src_base == old(self).repos.source_reader_repository@,
            decreases pipeline_derivatives.all_sources.len() - i,
        {
            proof {
                assert(src_items.skip(i as int)[0] == src_items[i as int]);
                assert(src_items.skip(i as int).drop_first() =~= src_items.skip(i + 1));
            }
            let ghost reg_before = self.repos.source_reader_repository@;
            let item = pipeline_derivatives.all_sources[i].clone();
            match self.repos.source_reader_repository.register(item) {
                Ok(()) => {
                    proof {
                        assert(src_items.take(i + 1) =~= src_items.take(i as int).push(
                            src_items[i as int],
                        ));
                        lemma_register_all_push(src_base, src_items.take(i as int), src_items[i as int]);
                    }
                },
                Err(e) => {
                    proof {
                        assert(spec_register_all(src_base, src_items) is None);
                        assert(spec_register(reg_before, src_items[i as int]) is None);
                        assert(0 <= i < src_items.len() && spec_register_all(
                            src_base,
                            src_items.take(i as int),
                        ) == Option::Some(self.repos.source_reader_repository@)
                            && spec_register(
                            self.repos.source_reader_repository@,
                            src_items[i as int],
                        ) is None);
                    }
                    return Err(e);
                },
            }
            i += 1;
        }
        proof {
            assert(src_items.skip(src_items.len() as int) =~= Seq::<NamedServerModel>::empty());
            assert(src_items.take(src_items.len() as int) =~= src_items);
        }
        let ghost sink_base = self.repos.sink_writer_repository@;
        let ghost sink_items = pipeline_derivatives.all_sinks@.map_values(|s: NamedServer| s@);
        proof {
            assert(sink_items.skip(0) =~= sink_items);
            assert(sink_items.take(0) =~= Seq::<NamedServerModel>::empty());
        }
        let mut i2: usize = 0;
        while i2 < pipeline_derivatives.all_sinks.len()
            invariant
                i2 <= pipeline_derivatives.all_sinks@.len(),
                sink_items == pipeline_derivatives.all_sinks@.map_values(|s: NamedServer| s@),
                spec_register_all(sink_base, sink_items) == spec_register_all(
                    self.repos.sink_writer_repository@,
                    sink_items.skip(i2 as int),
                ),
                spec_register_all(sink_base, sink_items.take(i2 as int)) == Option::Some(
                    self.repos.sink_writer_repository@,
                ),
                self.task_executor_lock == old(self).task_executor_lock,
                self.generic_worker_pool == old(self).generic_worker_pool,
                self.source_worker_pool == old(self).source_worker_pool,
                self.repos.row_queue_repository@ == old(self).repos.row_queue_repository@,
                self.repos.window_queue_repository@ == old(self).repos.window_queue_repository@,
                sink_base == old(self).repos.sink_writer_repository@,
                spec_register_all(
                    old(self).repos.source_reader_repository@,
                    pipeline_derivatives.all_sources@.map_values(|s: NamedServer| s@),
                ) == Option::Some(self.repos.source_reader_repository@),
            decreases pipeline_derivatives.all_sinks.len() - i2,
        {
            proof {
                assert(sink_items.skip(i2 as int)[0] == sink_items[i2 as int]);
                assert(sink_items.skip(i2 as int).drop_first() =~= sink_items.skip(i2 + 1));
            }
            let ghost reg_before = self.repos.sink_writer_repository@;
            let item = pipeline_derivatives.all_sinks[i2].clone();
            match self.repos.sink_writer_repository.register(item) {
                Ok(()) => {
                    proof {
                        assert(sink_items.take(i2 + 1) =~= sink_items.take(i2 as int).push(
                            sink_items[i2 as int],
                        ));
                        lemma_register_all_push(
                            sink_base,
                            sink_items.take(i2 as int),
                            sink_items[i2 as int],
                        );
                    }
                },
                Err(e) => {
                    proof {
                        assert(spec_register_all(sink_base, sink_items) is None);
                        assert(spec_register(reg_before, sink_items[i2 as int]) is None);
                        assert(0 <= i2 < sink_items.len() && spec_register_all(
                            sink_base,
                            sink_items.take(i2 as int),
                        ) == Option::Some(self.repos.sink_writer_repository@)
                            && spec_register(
                            self.repos.sink_writer_repository@,
                            sink_items[i2 as int],
                        ) is None);
                    }
                    return Err(e);
                },
            }
            i2 += 1;
        }
        proof {
            assert(sink_items.skip(sink_items.len() as int) =~= Seq::<NamedServerModel>::empty());
            assert(sink_items.take(sink_items.len() as int) =~= sink_items);
        }
        self.reset_queues_to_graph(pipeline_derivatives.task_graph());
        bus.publish(Event::UpdatePipeline);
        Ok(())
    }

    /// Reset both queue repositories to the graph's edges: one empty queue
    /// per row-queue edge and one per window-queue edge.
    fn reset_queues_to_graph(&mut self, task_graph: &TaskGraph)
        requires
            graph_queues_distinct(task_graph@),
        ensures
            final(self).task_executor_lock == old(self).task_executor_lock,
            final(self).generic_worker_pool == old(self).generic_worker_pool,
            final(self).source_worker_pool == old(self).source_worker_pool,
            final(self).repos.source_reader_repository@ == old(
                self,
            ).repos.source_reader_repository@,
            final(self).repos.sink_writer_repository@ == old(self).repos.sink_writer_repository@,
            repos_match_graph(
                final(self).repos.row_queue_repository@,
                final(self).repos.window_queue_repository@,
                task_graph@,
            ),
            forall|qi: int|
                0 <= qi < final(self).repos.row_queue_repository@.len() ==> (#[trigger] final(self).repos.row_queue_repository@[qi].rows).len() == 0,
            forall|qi: int|
                0 <= qi < final(self).repos.window_queue_repository@.len() ==> (#[trigger] final(self).repos.window_queue_repository@[qi].rows).len() == 0,
    {
        let row_queues = task_graph.row_queues();
        proof {
            assert forall|i: int, j: int| 0 <= i < j < row_queues@.len() implies row_queues@[i]@
                != row_queues@[j]@ by {
                assert(row_queues@.map_values(|t: crate::task::TaskId| t@)[i] == row_queues@[i]@);
                assert(row_queues@.map_values(|t: crate::task::TaskId| t@)[j] == row_queues@[j]@);
            }
        }
        self.repos.row_queue_repository.reset(row_queues);
        let window_queues = task_graph.window_queues();
        proof {
            assert forall|i: int, j: int|
                0 <= i < j < window_queues@.len() implies window_queues@[i]@
                != window_queues@[j]@ by {
                assert(window_queues@.map_values(|t: crate::task::TaskId| t@)[i]
                    == window_queues@[i]@);
                assert(window_queues@.map_values(|t: crate::task::TaskId| t@)[j]
                    == window_queues@[j]@);
            }
        }
        self.repos.window_queue_repository.reset(window_queues);
    }

    /// Shut the executor down: stop the source workers first, drop what
    /// remains in the queues (leaving one empty queue per edge), then stop
    /// the generic workers. Runs under the exclusive grant. The drain the
    /// generic workers get before their stop is the host loop's deadline;
    /// after it, the rows are dropped here.
    pub fn cleanup(&mut self, _lock_guard: &PipelineUpdateLockGuard, task_graph: &TaskGraph)
        requires
            graph_queues_distinct(task_graph@),
        ensures
            final(self).task_executor_lock == old(self).task_executor_lock,
            final(self).repos.source_reader_repository@ == old(self).repos.source_reader_repository@,
            final(self).repos.sink_writer_repository@ == old(self).repos.sink_writer_repository@,
            repos_match_graph(
                final(self).repos.row_queue_repository@,
                final(self).repos.window_queue_repository@,
                task_graph@,
            ),
            forall|qi: int|
                0 <= qi < final(self).repos.row_queue_repository@.len() ==> (#[trigger] final(self).repos.row_queue_repository@[qi].rows).len() == 0,
            forall|qi: int|
                0 <= qi < final(self).repos.window_queue_repository@.len() ==> (#[trigger] final(self).repos.window_queue_repository@[qi].rows).len() == 0,
            final(self).source_worker_pool.workers@.len() == old(
                self,
            ).source_worker_pool.workers@.len(),
            forall|i: int|
                0 <= i < final(self).source_worker_pool.workers@.len() ==> (#[trigger] final(self).source_worker_pool.workers@[i].handle).stopped,
            final(self).generic_worker_pool.workers@.len() == old(
                self,
            ).generic_worker_pool.workers@.len(),
            forall|i: int|
                0 <= i < final(self).generic_worker_pool.workers@.len() ==> (#[trigger] final(self).generic_worker_pool.workers@[i].handle).stopped,
    {
        self.source_worker_pool.stop_all();
        self.reset_queues_to_graph(task_graph);
        self.generic_worker_pool.stop_all();
    }
}

} // verus!
