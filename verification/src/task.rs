//! Task identity and the immutable task graph.
//!
//! A task is a node of the dataflow graph: a source, a pump, or a sink.
//! Tasks reference queues by id, not by direct handle; queue lookup goes
//! through the repositories, which keeps the graph a DAG of identifiers.

use vstd::prelude::*;

use crate::row_repository::NaiveRowRepository;
use crate::row_repository::QueueModel;
use crate::row_repository::repo_wf;

verus! {

/// Stable identifier of a task.
#[derive(Debug)]
pub struct TaskId {
    pub name: String,
}

impl View for TaskId {
    type V = Seq<char>;

    open spec fn view(&self) -> Seq<char> {
        self.name@
    }
}

impl TaskId {
    pub fn new(name: String) -> (r: Self)
        ensures
            r@ == name@,
    {
        TaskId { name }
    }

    pub fn eq_id(&self, other: &Self) -> (r: bool)
        ensures
            r == (self@ == other@),
    {
        self.name == other.name
    }
}

impl Clone for TaskId {
    fn clone(&self) -> (r: Self)
        ensures
            r == *self,
    {
        TaskId { name: self.name.clone() }
    }
}

impl PartialEq for TaskId {
    fn eq(&self, other: &Self) -> (r: bool) {
        self.name == other.name
    }
}

impl vstd::std_specs::cmp::PartialEqSpecImpl for TaskId {
    open spec fn obeys_eq_spec() -> bool {
        true
    }

    open spec fn eq_spec(&self, other: &Self) -> bool {
        self.name@ == other.name@
    }
}

/// Kind of a task node.
#[derive(Clone, Copy, PartialEq, Eq, Structural, Debug)]
pub enum TaskKind {
    Source,
    Pump,
    Sink,
}

/// Mathematical model of a [`TaskNode`].
pub struct TaskNodeModel {
    pub id: Seq<char>,
    pub kind: TaskKind,
}

/// A node of the task graph.
#[derive(Debug)]
pub struct TaskNode {
    pub id: TaskId,
    pub kind: TaskKind,
}

impl View for TaskNode {
    type V = TaskNodeModel;

    open spec fn view(&self) -> TaskNodeModel {
        TaskNodeModel { id: self.id@, kind: self.kind }
    }
}

impl TaskNode {
    pub fn new(id: TaskId, kind: TaskKind) -> (r: Self)
        ensures
            r@ == (TaskNodeModel { id: id@, kind }),
    {
        TaskNode { id, kind }
    }
}

impl Clone for TaskNode {
    fn clone(&self) -> (r: Self)
        ensures
            r == *self,
    {
        TaskNode { id: self.id.clone(), kind: self.kind }
    }
}

/// Kind of the queue an edge carries.
#[derive(Clone, Copy, PartialEq, Eq, Structural, Debug)]
pub enum QueueKind {
    /// FIFO of row references.
    Row,
    /// Ordered by rowtime, supports range eviction.
    Window,
}

/// Mathematical model of an [`Edge`].
pub struct EdgeModel {
    pub upstream: Seq<char>,
    pub downstream: Seq<char>,
    pub queue_kind: QueueKind,
}

/// A directed edge between two tasks; it carries exactly one queue,
/// identified by its downstream (consumer) task.
#[derive(Debug)]
pub struct Edge {
    pub upstream: TaskId,
    pub downstream: TaskId,
    pub queue_kind: QueueKind,
}

impl View for Edge {
    type V = EdgeModel;

    open spec fn view(&self) -> EdgeModel {
        EdgeModel {
            upstream: self.upstream@,
            downstream: self.downstream@,
            queue_kind: self.queue_kind,
        }
    }
}

impl Edge {
    pub fn new(upstream: TaskId, downstream: TaskId, queue_kind: QueueKind) -> (r: Self)
        ensures
            r@ == (EdgeModel { upstream: upstream@, downstream: downstream@, queue_kind }),
    {
        Edge { upstream, downstream, queue_kind }
    }
}

impl Clone for Edge {
    fn clone(&self) -> (r: Self)
        ensures
            r == *self,
    {
        Edge {
            upstream: self.upstream.clone(),
            downstream: self.downstream.clone(),
            queue_kind: self.queue_kind,
        }
    }
}

/// Mathematical model of a [`TaskGraph`].
pub struct TaskGraphModel {
    pub nodes: Seq<TaskNodeModel>,
    pub edges: Seq<EdgeModel>,
}

/// Immutable snapshot of the dataflow graph: nodes (tasks) and edges
/// (queues). Construction happens outside the core; the core consumes the
/// value and never mutates it.
#[derive(Debug)]
pub struct TaskGraph {
    pub nodes: Vec<TaskNode>,
    pub edges: Vec<Edge>,
}

impl View for TaskGraph {
    type V = TaskGraphModel;

    open spec fn view(&self) -> TaskGraphModel {
        TaskGraphModel {
            nodes: self.nodes@.map_values(|n: TaskNode| n@),
            edges: self.edges@.map_values(|e: Edge| e@),
        }
    }
}

/// The downstream (consumer) ids of the edges of kind `k`, in edge order.
pub open spec fn queue_consumers(g: TaskGraphModel, k: QueueKind) -> Seq<Seq<char>> {
    g.edges.filter(|e: EdgeModel| e.queue_kind == k).map_values(|e: EdgeModel| e.downstream)
}

impl TaskGraph {
    pub fn new(nodes: Vec<TaskNode>, edges: Vec<Edge>) -> (r: Self)
        ensures
            r@.nodes == nodes@.map_values(|n: TaskNode| n@),
            r@.edges == edges@.map_values(|e: Edge| e@),
    {
        TaskGraph { nodes, edges }
    }

    /// The consumer task of every row-queue edge, in edge order.
    pub fn row_queues(&self) -> (r: Vec<TaskId>)
        ensures
            r@.map_values(|t: TaskId| t@) == queue_consumers(self@, QueueKind::Row),
    {
        self.queues_of_kind(QueueKind::Row)
    }

    /// The consumer task of every window-queue edge, in edge order.
    pub fn window_queues(&self) -> (r: Vec<TaskId>)
        ensures
            r@.map_values(|t: TaskId| t@) == queue_consumers(self@, QueueKind::Window),
    {
        self.queues_of_kind(QueueKind::Window)
    }

    fn queues_of_kind(&self, k: QueueKind) -> (r: Vec<TaskId>)
        ensures
            r@.map_values(|t: TaskId| t@) == queue_consumers(self@, k),
    {
        let mut r: Vec<TaskId> = Vec::new();
        let mut i: usize = 0;
        proof {
            assert(self.edges@.subrange(0, 0) =~= Seq::<Edge>::empty());
            assert(self.edges@.subrange(0, 0).map_values(|e: Edge| e@).filter(
                |e: EdgeModel| e.queue_kind == k,
            ) =~= Seq::<EdgeModel>::empty());
        }
        while i < self.edges.len()
            invariant
                i <= self.edges.len(),
                r@.map_values(|t: TaskId| t@) =~= self.edges@.subrange(0, i as int).map_values(
                    |e: Edge| e@,
                ).filter(|e: EdgeModel| e.queue_kind == k).map_values(
                    |e: EdgeModel| e.downstream,
                ),
            decreases self.edges.len() - i,
        {
            let ghost prev = r@;
            let ghost sold = self.edges@.subrange(0, i as int).map_values(|e: Edge| e@);
            let ghost em = self.edges@[i as int]@;
            proof {
                assert(self.edges@.subrange(0, i + 1).map_values(|e: Edge| e@) =~= sold.push(em));
                seq_filter_push(sold, |e: EdgeModel| e.queue_kind == k, em);
            }
            if self.edges[i].queue_kind == k {
                r.push(self.edges[i].downstream.clone());
                proof {
                    assert(r@.map_values(|t: TaskId| t@) =~= prev.map_values(|t: TaskId| t@).push(
                        em.downstream,
                    ));
                    assert(sold.filter(|e: EdgeModel| e.queue_kind == k).push(em).map_values(
                        |e: EdgeModel| e.downstream,
                    ) =~= sold.filter(|e: EdgeModel| e.queue_kind == k).map_values(
                        |e: EdgeModel| e.downstream,
                    ).push(em.downstream));
                }
            }
            i += 1;
        }
        proof {
            assert(self.edges@.subrange(0, self.edges@.len() as int) =~= self.edges@);
        }
        r
    }

    /// The downstream tasks of `task`, in edge order.
    pub fn downstream_of(&self, task: &TaskId) -> (r: Vec<TaskId>)
        ensures
            r@.map_values(|t: TaskId| t@) == self@.edges.filter(
                |e: EdgeModel| e.upstream == task@,
            ).map_values(|e: EdgeModel| e.downstream),
    {
        let mut r: Vec<TaskId> = Vec::new();
        let mut i: usize = 0;
        while i < self.edges.len()
            invariant
                i <= self.edges.len(),
                r@.map_values(|t: TaskId| t@) =~= self.edges@.subrange(0, i as int).map_values(
                    |e: Edge| e@,
                ).filter(|e: EdgeModel| e.upstream == task@).map_values(
                    |e: EdgeModel| e.downstream,
                ),
            decreases self.edges.len() - i,
        {
            let ghost prev = r@;
            let ghost sold = self.edges@.subrange(0, i as int).map_values(|e: Edge| e@);
            let ghost em = self.edges@[i as int]@;
            proof {
                assert(self.edges@.subrange(0, i + 1).map_values(|e: Edge| e@) =~= sold.push(em));
                seq_filter_push(sold, |e: EdgeModel| e.upstream == task@, em);
            }
            if self.edges[i].upstream.eq_id(task) {
                r.push(self.edges[i].downstream.clone());
                proof {
                    assert(r@.map_values(|t: TaskId| t@) =~= prev.map_values(|t: TaskId| t@).push(
                        em.downstream,
                    ));
                    assert(sold.filter(|e: EdgeModel| e.upstream == task@).push(em).map_values(
                        |e: EdgeModel| e.downstream,
                    ) =~= sold.filter(|e: EdgeModel| e.upstream == task@).map_values(
                        |e: EdgeModel| e.downstream,
                    ).push(em.downstream));
                }
            }
            i += 1;
        }
        proof {
            assert(self.edges@.subrange(0, self.edges@.len() as int) =~= self.edges@);
        }
        r
    }

    /// The ids of the source tasks, in node order.
    pub fn source_tasks(&self) -> (r: Vec<TaskId>)
        ensures
            r@.map_values(|t: TaskId| t@) == self@.nodes.filter(
                |n: TaskNodeModel| n.kind == TaskKind::Source,
            ).map_values(|n: TaskNodeModel| n.id),
    {
        let mut r: Vec<TaskId> = Vec::new();
        let mut i: usize = 0;
        while i < self.nodes.len()
            invariant
                i <= self.nodes.len(),
                r@.map_values(|t: TaskId| t@) =~= self.nodes@.subrange(0, i as int).map_values(
                    |n: TaskNode| n@,
                ).filter(|n: TaskNodeModel| n.kind == TaskKind::Source).map_values(
                    |n: TaskNodeModel| n.id,
                ),
            decreases self.nodes.len() - i,
        {
            let ghost prev = r@;
            let ghost sold = self.nodes@.subrange(0, i as int).map_values(|n: TaskNode| n@);
            let ghost nm = self.nodes@[i as int]@;
            proof {
                assert(self.nodes@.subrange(0, i + 1).map_values(|n: TaskNode| n@) =~= sold.push(
                    nm,
                ));
                seq_node_filter_push(sold, |n: TaskNodeModel| n.kind == TaskKind::Source, nm);
            }
            if self.nodes[i].kind == TaskKind::Source {
                r.push(self.nodes[i].id.clone());
                proof {
                    assert(r@.map_values(|t: TaskId| t@) =~= prev.map_values(|t: TaskId| t@).push(
                        nm.id,
                    ));
                    assert(sold.filter(|n: TaskNodeModel| n.kind == TaskKind::Source).push(
                        nm,
                    ).map_values(|n: TaskNodeModel| n.id) =~= sold.filter(
                        |n: TaskNodeModel| n.kind == TaskKind::Source,
                    ).map_values(|n: TaskNodeModel| n.id).push(nm.id));
                }
            }
            i += 1;
        }
        proof {
            assert(self.nodes@.subrange(0, self.nodes@.len() as int) =~= self.nodes@);
        }
        r
    }
}

/// True of a task that a worker could run now: a source always has work to
/// try; any other task has work exactly when a row waits in its queue.
pub open spec fn runnable_now(n: TaskNodeModel, qs: Seq<QueueModel>) -> bool {
    n.kind == TaskKind::Source || exists|qi: int|
        0 <= qi < qs.len() && #[trigger] qs[qi].task == n.id && qs[qi].rows.len() > 0
}

/// The tasks runnable against the queues of `qs`.
pub open spec fn runnable_pred(qs: Seq<QueueModel>) -> spec_fn(TaskNodeModel) -> bool {
    |n: TaskNodeModel| runnable_now(n, qs)
}

impl TaskGraph {
    /// The tasks with at least one input row waiting (sources always), in
    /// node order.
    pub fn tasks_runnable_now(&self, queues: &NaiveRowRepository) -> (r: Vec<TaskId>)
        requires
            repo_wf(queues@),
        ensures
            r@.map_values(|t: TaskId| t@) == self@.nodes.filter(runnable_pred(queues@)).map_values(
                |n: TaskNodeModel| n.id,
            ),
    {
        let ghost qs = queues@;
        let mut r: Vec<TaskId> = Vec::new();
        let mut i: usize = 0;
        proof {
            assert(self.nodes@.subrange(0, 0) =~= Seq::<TaskNode>::empty());
            assert(self.nodes@.subrange(0, 0).map_values(|n: TaskNode| n@).filter(
                runnable_pred(qs),
            ) =~= Seq::<TaskNodeModel>::empty());
        }
        while i < self.nodes.len()
            invariant
                i <= self.nodes.len(),
                qs == queues@,
                repo_wf(queues@),
                r@.map_values(|t: TaskId| t@) =~= self.nodes@.subrange(0, i as int).map_values(
                    |n: TaskNode| n@,
                ).filter(runnable_pred(qs)).map_values(|n: TaskNodeModel| n.id),
            decreases self.nodes.len() - i,
        {
            let ghost prev = r@;
            let ghost sold = self.nodes@.subrange(0, i as int).map_values(|n: TaskNode| n@);
            let ghost nm = self.nodes@[i as int]@;
            proof {
                assert(self.nodes@.subrange(0, i + 1).map_values(|n: TaskNode| n@) =~= sold.push(
                    nm,
                ));
                seq_node_filter_push(sold, runnable_pred(qs), nm);
            }
            let node = &self.nodes[i];
            let runnable: bool = match node.kind {
                TaskKind::Source => true,
                _ => queues.has_pending(&node.id),
            };
            proof {
                assert(runnable == runnable_pred(qs)(nm));
            }
            if runnable {
                r.push(node.id.clone());
                proof {
                    assert(r@.map_values(|t: TaskId| t@) =~= prev.map_values(|t: TaskId| t@).push(
                        nm.id,
                    ));
                    assert(sold.filter(runnable_pred(qs)).push(nm).map_values(
                        |n: TaskNodeModel| n.id,
                    ) =~= sold.filter(runnable_pred(qs)).map_values(|n: TaskNodeModel| n.id).push(
                        nm.id,
                    ));
                }
            }
            i += 1;
        }
        proof {
            assert(self.nodes@.subrange(0, self.nodes@.len() as int) =~= self.nodes@);
        }
        r
    }
}

proof fn seq_filter_push(s: Seq<EdgeModel>, pred: spec_fn(EdgeModel) -> bool, e: EdgeModel)
    ensures
        s.push(e).filter(pred) == if pred(e) {
            s.filter(pred).push(e)
        } else {
            s.filter(pred)
        },
{
    reveal(Seq::filter);
    assert(s.push(e).drop_last() =~= s);
}

proof fn seq_node_filter_push(
    s: Seq<TaskNodeModel>,
    pred: spec_fn(TaskNodeModel) -> bool,
    n: TaskNodeModel,
)
    ensures
        s.push(n).filter(pred) == if pred(n) {
            s.filter(pred).push(n)
        } else {
            s.filter(pred)
        },
{
    reveal(Seq::filter);
    assert(s.push(n).drop_last() =~= s);
}

} // verus!
