//! Bounded inter-task row buffers, addressed by consumer task.
//!
//! Each task that consumes rows owns one FIFO queue. `emit` moves a row to
//! the queues of all its downstream tasks at once, sharing one reference per
//! queue; `collect_next` pops the oldest row destined for a task. Waiting up
//! to the configured timeout is the caller's loop: an empty queue reports
//! `InputTimeout` at once.

use std::sync::Arc;
use vstd::prelude::*;

use crate::error::SpringError;
use crate::row::FieldModel;
use crate::row::Row;
use crate::task::TaskId;
use crate::value::SpringTimestamp;
use crate::value::SqlValue;
use crate::value::ValModel;
use crate::value::text_lt;

verus! {

/// Mathematical model of one task's queue.
pub struct QueueModel {
    pub task: Seq<char>,
    pub rows: Seq<Seq<FieldModel>>,
}

/// One task's inbound FIFO of shared row references.
pub struct TaskQueue {
    pub task: TaskId,
    pub rows: Vec<Arc<Row>>,
}

impl View for TaskQueue {
    type V = QueueModel;

    open spec fn view(&self) -> QueueModel {
        QueueModel { task: self.task@, rows: self.rows@.map_values(|r: Arc<Row>| r@) }
    }
}

/// True when some queue of `qs` belongs to `task`.
pub open spec fn registered(qs: Seq<QueueModel>, task: Seq<char>) -> bool {
    exists|qi: int| 0 <= qi < qs.len() && qs[qi].task == task
}

/// True when `name` is the id of one of `tasks`.
pub open spec fn name_in(tasks: Seq<Seq<char>>, name: Seq<char>) -> bool {
    exists|k: int| 0 <= k < tasks.len() && tasks[k] == name
}

/// One queue per task, task ids unique.
pub open spec fn repo_wf(qs: Seq<QueueModel>) -> bool {
    forall|i: int, j: int| 0 <= i < j < qs.len() ==> qs[i].task != qs[j].task
}

/// Relies on `Arc::clone`: the result is another reference to the same row.
#[verifier::external_body]
fn share_row(row: &Arc<Row>) -> (r: Arc<Row>)
    ensures
        r == *row,
{
    Arc::clone(row)
}

/// Maps each task to its inbound queue of shared row references.
pub struct NaiveRowRepository {
    pub queues: Vec<TaskQueue>,
}

impl View for NaiveRowRepository {
    type V = Seq<QueueModel>;

    open spec fn view(&self) -> Seq<QueueModel> {
        self.queues@.map_values(|q: TaskQueue| q@)
    }
}

impl Default for NaiveRowRepository {
    /// An empty repository: no task registered yet.
    fn default() -> (r: Self)
        ensures
            r@ == Seq::<QueueModel>::empty(),
    {
        let r = NaiveRowRepository { queues: Vec::new() };
        proof {
            assert(r@ =~= Seq::<QueueModel>::empty());
        }
        r
    }
}

impl NaiveRowRepository {
    /// Index of `task`'s queue.
    fn queue_index(&self, task: &TaskId) -> (r: Option<usize>)
        ensures
            match r {
                Some(i) => i < self@.len() && self@[i as int].task == task@,
                None => !registered(self@, task@),
            },
    {
        let mut i: usize = 0;
        while i < self.queues.len()
            invariant
                i <= self@.len(),
                self@.len() == self.queues@.len(),
                forall|j: int| 0 <= j < i ==> #[trigger] self@[j].task != task@,
            decreases self.queues.len() - i,
        {
            if self.queues[i].task.eq_id(task) {
                return Some(i);
            }
            i += 1;
        }
        None
    }

    /// Get the next row as `task`'s input.
    ///
    /// # Failures
    ///
    /// - `SpringError::InputTimeout` when no row is waiting for `task`.
    pub fn collect_next(&mut self, task: &TaskId) -> (r: Result<Row, SpringError>)
        requires
            registered(old(self)@, task@),
            repo_wf(old(self)@),
        ensures
            repo_wf(final(self)@),
            final(self)@.len() == old(self)@.len(),
            forall|qi: int|
                0 <= qi < final(self)@.len() && old(self)@[qi].task != task@ ==> final(self)@[qi]
                    == old(self)@[qi],
            forall|qi: int|
                0 <= qi < final(self)@.len() ==> final(self)@[qi].task == #[trigger] old(
                    self,
                )@[qi].task,
            match r {
                Ok(row) => forall|qi: int|
                    0 <= qi < old(self)@.len() && #[trigger] old(self)@[qi].task == task@ ==> {
                        &&& old(self)@[qi].rows.len() > 0
                        &&& row@ == old(self)@[qi].rows[0]
                        &&& final(self)@[qi].rows == old(self)@[qi].rows.drop_first()
                    },
                Err(e) => {
                    &&& e is InputTimeout
                    &&& final(self)@ == old(self)@
                    &&& forall|qi: int|
                        0 <= qi < old(self)@.len() && #[trigger] old(self)@[qi].task == task@
                            ==> old(self)@[qi].rows.len() == 0
                },
            },
    {
        let qi = match self.queue_index(task) {
            Some(qi) => qi,
            None => {
                proof {
                    assert(false);
                }
                return Err(SpringError::InputTimeout);
            },
        };
        if self.queues[qi].rows.len() == 0 {
            assert(self@ =~= old(self)@);
            return Err(SpringError::InputTimeout);
        }
        let ghost prev = self@;
        let arc = self.queues[qi].rows.remove(0);
        let row = (*arc).clone();
        proof {
            assert(self@.len() == prev.len());
            assert(self@[qi as int].rows =~= prev[qi as int].rows.drop_first());
            assert(self@[qi as int].task == prev[qi as int].task);
            assert(forall|j: int|
                0 <= j < self@.len() && j != qi ==> self@[j] == #[trigger] prev[j]);
            assert(forall|j: int| 0 <= j < self@.len() ==> self@[j].task == #[trigger] prev[j].task);
            assert(prev == old(self)@);
            assert forall|i: int, j: int| 0 <= i < j < self@.len() implies self@[i].task
                != self@[j].task by {
                assert(self@[i].task == prev[i].task);
                assert(self@[j].task == prev[j].task);
            }
        }
        Ok(row)
    }

    /// Move `row` to every listed downstream task, sharing one reference per
    /// queue.
    ///
    /// Emitting to an empty downstream list is a caller error, as is naming a
    /// task that has no queue.
    pub fn emit(&mut self, row: Row, downstream_tasks: &[TaskId]) -> (r: Result<
        (),
        SpringError,
    >)
        requires
            downstream_tasks@.len() > 0,
            forall|k: int|
                0 <= k < downstream_tasks@.len() ==> registered(
                    old(self)@,
                    #[trigger] downstream_tasks@[k]@,
                ),
            forall|k1: int, k2: int|
                0 <= k1 < k2 < downstream_tasks@.len() ==> downstream_tasks@[k1]@
                    != downstream_tasks@[k2]@,
            repo_wf(old(self)@),
        ensures
            r is Ok,
            repo_wf(final(self)@),
            final(self)@.len() == old(self)@.len(),
            forall|qi: int|
                0 <= qi < final(self)@.len() ==> final(self)@[qi] == (if name_in(
                    downstream_tasks@.map_values(|t: TaskId| t@),
                    old(self)@[qi].task,
                ) {
                    QueueModel {
                        task: old(self)@[qi].task,
                        rows: old(self)@[qi].rows.push(row@),
                    }
                } else {
                    old(self)@[qi]
                }),
    {
        let ghost base = self@;
        let ghost all_names = downstream_tasks@.map_values(|t: TaskId| t@);
        let arc = Arc::new(row);
        let mut k: usize = 0;
        while k < downstream_tasks.len()
            invariant
                k <= downstream_tasks@.len(),
                arc@ == row@,
                repo_wf(base),
                self@.len() == base.len(),
                all_names == downstream_tasks@.map_values(|t: TaskId| t@),
                forall|k2: int|
                    0 <= k2 < downstream_tasks@.len() ==> registered(
                        base,
                        #[trigger] downstream_tasks@[k2]@,
                    ),
                forall|k1: int, k2: int|
                    0 <= k1 < k2 < downstream_tasks@.len() ==> downstream_tasks@[k1]@
                        != downstream_tasks@[k2]@,
                forall|qi: int|
                    0 <= qi < self@.len() ==> self@[qi] == (if name_in(
                        all_names.take(k as int),
                        base[qi].task,
                    ) {
                        QueueModel { task: base[qi].task, rows: base[qi].rows.push(row@) }
                    } else {
                        base[qi]
                    }),
            decreases downstream_tasks.len() - k,
        {
            proof {
                let name = downstream_tasks@[k as int]@;
                assert(registered(base, name));
                let wqi = choose|qi: int| 0 <= qi < base.len() && base[qi].task == name;
                assert(self@[wqi] == (if name_in(all_names.take(k as int), base[wqi].task) {
                    QueueModel { task: base[wqi].task, rows: base[wqi].rows.push(row@) }
                } else {
                    base[wqi]
                }));
                assert(self@[wqi].task == name);
                assert(registered(self@, name));
            }
            let qi = match self.queue_index(&downstream_tasks[k]) {
                Some(qi) => qi,
                None => {
                    proof {
                        assert(false);
                    }
                    return Err(SpringError::InputTimeout);
                },
            };
            let ghost prev = self@;
            let shared = share_row(&arc);
            self.queues[qi].rows.push(shared);
            proof {
                let name = downstream_tasks@[k as int]@;
                assert forall|j: int| 0 <= j < k implies all_names.take(k as int)[j] != name by {
                    assert(all_names.take(k as int)[j] == downstream_tasks@[j]@);
                }
                assert(!name_in(all_names.take(k as int), name));
                assert(prev[qi as int] == (if name_in(all_names.take(k as int), base[qi as int].task) {
                    QueueModel {
                        task: base[qi as int].task,
                        rows: base[qi as int].rows.push(row@),
                    }
                } else {
                    base[qi as int]
                }));
                assert(base[qi as int].task == name);
                assert(prev[qi as int] == base[qi as int]);
                assert(self@.len() == prev.len());
                assert(self@[qi as int].rows =~= prev[qi as int].rows.push(row@));
                assert(self@[qi as int].task == prev[qi as int].task);
                assert(forall|j: int|
                    0 <= j < self@.len() && j != qi ==> self@[j] == #[trigger] prev[j]);
                assert(all_names.take(k + 1) =~= all_names.take(k as int).push(name));
                assert forall|qi2: int| 0 <= qi2 < self@.len() implies self@[qi2] == (if name_in(
                    all_names.take(k + 1),
                    base[qi2].task,
                ) {
                    QueueModel { task: base[qi2].task, rows: base[qi2].rows.push(row@) }
                } else {
                    base[qi2]
                }) by {
                    if qi2 == qi {
                        assert(name_in(all_names.take(k + 1), name)) by {
                            assert(all_names.take(k + 1)[k as int] == name);
                        }
                        assert(self@[qi2].rows =~= base[qi2].rows.push(row@));
                        assert(self@[qi2] == QueueModel {
                            task: base[qi2].task,
                            rows: base[qi2].rows.push(row@),
                        });
                    } else {
                        assert(base[qi2].task != name);
                        lemma_name_in_push(all_names.take(k as int), name, base[qi2].task);
                        assert(self@[qi2] == prev[qi2]);
                    }
                }
            }
            k += 1;
        }
        proof {
            assert(all_names.take(downstream_tasks@.len() as int) =~= all_names);
        }
        Ok(())
    }

    /// Whether at least one row is waiting for `task`.
    pub fn has_pending(&self, task: &TaskId) -> (r: bool)
        requires
            repo_wf(self@),
        ensures
            r == exists|qi: int|
                0 <= qi < self@.len() && #[trigger] self@[qi].task == task@ && self@[qi].rows.len()
                    > 0,
    {
        match self.queue_index(task) {
            Some(i) => {
                if self.queues[i].rows.len() > 0 {
                    proof {
                        assert(self@[i as int].task == task@ && self@[i as int].rows.len() > 0);
                    }
                    true
                } else {
                    proof {
                        assert forall|qi: int|
                            0 <= qi < self@.len() && #[trigger] self@[qi].task == task@ implies self@[qi].rows.len()
                            == 0 by {
                            if qi != i {
                                assert(self@[qi].task != self@[i as int].task);
                            }
                        }
                    }
                    false
                }
            },
            None => {
                proof {
                    assert(!registered(self@, task@));
                }
                false
            },
        }
    }

    /// Number of rows waiting for `task`.
    pub fn queue_len(&self, task: &TaskId) -> (r: usize)
        requires
            registered(self@, task@),
            repo_wf(self@),
        ensures
            forall|qi: int|
                0 <= qi < self@.len() && #[trigger] self@[qi].task == task@ ==> r == self@[qi]
                    .rows.len(),
    {
        let qi = match self.queue_index(task) {
            Some(qi) => qi,
            None => {
                proof {
                    assert(false);
                }
                return 0;
            },
        };
        self.queues[qi].rows.len()
    }

    /// Drop every queued row, keeping the queues themselves: the Critical
    /// purge of intermediate rows.
    pub fn purge_all(&mut self)
        ensures
            final(self)@.len() == old(self)@.len(),
            forall|qi: int|
                0 <= qi < final(self)@.len() ==> final(self)@[qi] == (QueueModel {
                    task: old(self)@[qi].task,
                    rows: Seq::<Seq<FieldModel>>::empty(),
                }),
    {
        let ghost base = self@;
        let mut i: usize = 0;
        while i < self.queues.len()
            invariant
                i <= self.queues@.len(),
                self@.len() == base.len(),
                self.queues@.len() == base.len(),
                forall|qi: int|
                    i <= qi < self@.len() ==> #[trigger] self@[qi] == base[qi],
                forall|qi: int|
                    0 <= qi < i ==> #[trigger] self@[qi] == (QueueModel {
                        task: base[qi].task,
                        rows: Seq::<Seq<FieldModel>>::empty(),
                    }),
            decreases self.queues.len() - i,
        {
            let ghost prev = self@;
            self.queues[i].rows = Vec::new();
            proof {
                assert(self@[i as int].rows =~= Seq::<Seq<FieldModel>>::empty());
                assert(self@[i as int].task == prev[i as int].task);
                assert(prev[i as int] == base[i as int]);
                assert forall|qi: int| i + 1 <= qi < self@.len() implies self@[qi] == base[qi] by {
                    assert(self@[qi] == prev[qi]);
                }
                assert forall|qi: int| 0 <= qi < i + 1 implies self@[qi] == (QueueModel {
                    task: base[qi].task,
                    rows: Seq::<Seq<FieldModel>>::empty(),
                }) by {
                    if qi < i {
                        assert(self@[qi] == prev[qi]);
                    }
                }
            }
            i += 1;
        }
    }

    /// Discard all queues and recreate one empty queue per listed task.
    ///
    /// Called under the pipeline-update lock only.
    pub fn reset(&mut self, tasks: Vec<TaskId>)
        requires
            forall|i: int, j: int| 0 <= i < j < tasks@.len() ==> tasks@[i]@ != tasks@[j]@,
        ensures
            repo_wf(final(self)@),
            final(self)@.len() == tasks@.len(),
            forall|i: int|
                0 <= i < final(self)@.len() ==> final(self)@[i] == (QueueModel {
                    task: tasks@[i]@,
                    rows: Seq::<Seq<FieldModel>>::empty(),
                }),
    {
        let mut queues: Vec<TaskQueue> = Vec::new();
        let mut i: usize = 0;
        while i < tasks.len()
            invariant
                i <= tasks@.len(),
                queues@.len() == i,
                forall|i2: int, j2: int| 0 <= i2 < j2 < tasks@.len() ==> tasks@[i2]@ != tasks@[j2]@,
                forall|j: int|
                    0 <= j < i ==> #[trigger] queues@[j]@ == (QueueModel {
                        task: tasks@[j]@,
                        rows: Seq::<Seq<FieldModel>>::empty(),
                    }),
            decreases tasks.len() - i,
        {
            let q = TaskQueue { task: tasks[i].clone(), rows: Vec::new() };
            proof {
                assert(q@.rows =~= Seq::<Seq<FieldModel>>::empty());
            }
            queues.push(q);
            i += 1;
        }
        self.queues = queues;
    }
}

proof fn lemma_name_in_push(s: Seq<Seq<char>>, x: Seq<char>, y: Seq<char>)
    requires
        y != x,
    ensures
        name_in(s.push(x), y) == name_in(s, y),
{
    if name_in(s.push(x), y) {
        let w = choose|w: int| 0 <= w < s.push(x).len() && s.push(x)[w] == y;
        if w < s.len() {
            assert(s[w] == y);
            assert(name_in(s, y));
        } else {
            assert(s.push(x)[w] == x);
        }
    }
    if name_in(s, y) {
        let w = choose|w: int| 0 <= w < s.len() && s[w] == y;
        assert(s.push(x)[w] == y);
        assert(name_in(s.push(x), y));
    }
}


// ---------------------------------------------------------------------------
// Laws of the repository model.
//
// `emit` ensures that each listed queue gets the row appended (`rows.push`);
// `collect_next` ensures that the consumer's queue loses its first row
// (`rows[0]`, `rows.drop_first()`); `reset` ensures every queue is empty.
// The laws below are stated over exactly those model operations.
// ---------------------------------------------------------------------------

/// The queue after the rows of `s` were emitted one after the other into `q`.
pub open spec fn enqueue_all(
    q: Seq<Seq<FieldModel>>,
    s: Seq<Seq<FieldModel>>,
) -> Seq<Seq<FieldModel>>
    decreases s.len(),
{
    if s.len() == 0 {
        q
    } else {
        enqueue_all(q.push(s[0]), s.drop_first())
    }
}

/// The first `k` rows collected from queue `q`, in collection order.
pub open spec fn drain(q: Seq<Seq<FieldModel>>, k: nat) -> Seq<Seq<FieldModel>>
    decreases k,
{
    if k == 0 || q.len() == 0 {
        Seq::<Seq<FieldModel>>::empty()
    } else {
        seq![q[0]] + drain(q.drop_first(), (k - 1) as nat)
    }
}

proof fn lemma_enqueue_all_concat(q: Seq<Seq<FieldModel>>, s: Seq<Seq<FieldModel>>)
    ensures
        enqueue_all(q, s) == q + s,
    decreases s.len(),
{
    if s.len() == 0 {
        assert(q + s =~= q);
    } else {
        lemma_enqueue_all_concat(q.push(s[0]), s.drop_first());
        assert(q.push(s[0]) + s.drop_first() =~= q + s);
    }
}

proof fn lemma_drain_take(q: Seq<Seq<FieldModel>>, k: nat)
    requires
        k <= q.len(),
    ensures
        drain(q, k) == q.take(k as int),
    decreases k,
{
    if k == 0 {
        assert(q.take(0) =~= Seq::<Seq<FieldModel>>::empty());
    } else {
        lemma_drain_take(q.drop_first(), (k - 1) as nat);
        assert(seq![q[0]] + q.drop_first().take((k - 1) as int) =~= q.take(k as int));
    }
}

/// Law: on a single-consumer edge rows are delivered FIFO. Emitting the
/// row sequence `s` into an empty queue and then collecting `s.len()` times
/// returns exactly `s`, in emit order.
pub proof fn lemma_single_consumer_fifo(s: Seq<Seq<FieldModel>>)
    ensures
        drain(enqueue_all(Seq::<Seq<FieldModel>>::empty(), s), s.len()) == s,
{
    lemma_enqueue_all_concat(Seq::<Seq<FieldModel>>::empty(), s);
    assert(Seq::<Seq<FieldModel>>::empty() + s =~= s);
    lemma_drain_take(s, s.len());
    assert(s.take(s.len() as int) =~= s);
}

/// Number of references to row `r` that one queue holds.
pub open spec fn count_in_rows(rows: Seq<Seq<FieldModel>>, r: Seq<FieldModel>) -> nat
    decreases rows.len(),
{
    if rows.len() == 0 {
        0
    } else {
        (if rows[0] == r {
            1nat
        } else {
            0nat
        }) + count_in_rows(rows.drop_first(), r)
    }
}

/// Number of references to row `r` held across all queues: the model of the
/// row's shared reference count inside the repository.
pub open spec fn occurrences(qs: Seq<QueueModel>, r: Seq<FieldModel>) -> nat
    decreases qs.len(),
{
    if qs.len() == 0 {
        0
    } else {
        count_in_rows(qs[0].rows, r) + occurrences(qs.drop_first(), r)
    }
}

/// Number of queues of `qs` whose task is listed in `names`.
pub open spec fn affected(qs: Seq<QueueModel>, names: Seq<Seq<char>>) -> nat
    decreases qs.len(),
{
    if qs.len() == 0 {
        0
    } else {
        (if name_in(names, qs[0].task) {
            1nat
        } else {
            0nat
        }) + affected(qs.drop_first(), names)
    }
}

proof fn lemma_count_push(rows: Seq<Seq<FieldModel>>, x: Seq<FieldModel>, r: Seq<FieldModel>)
    ensures
        count_in_rows(rows.push(x), r) == count_in_rows(rows, r) + (if x == r {
            1nat
        } else {
            0nat
        }),
    decreases rows.len(),
{
    if rows.len() == 0 {
        assert(rows.push(x)[0] == x);
        assert(rows.push(x).drop_first() =~= rows);
    } else {
        assert(rows.push(x).drop_first() =~= rows.drop_first().push(x));
        assert(rows.push(x)[0] == rows[0]);
        lemma_count_push(rows.drop_first(), x, r);
    }
}

proof fn lemma_count_zero_iff_absent(rows: Seq<Seq<FieldModel>>, r: Seq<FieldModel>)
    ensures
        (count_in_rows(rows, r) == 0) == (forall|j: int| 0 <= j < rows.len() ==> rows[j] != r),
    decreases rows.len(),
{
    if rows.len() > 0 {
        let t = rows.drop_first();
        lemma_count_zero_iff_absent(t, r);
        if count_in_rows(rows, r) == 0 {
            assert(rows[0] != r);
            assert forall|j: int| 0 <= j < rows.len() implies rows[j] != r by {
                if j > 0 {
                    assert(t[j - 1] == rows[j]);
                }
            }
        } else {
            if rows[0] != r {
                assert(count_in_rows(t, r) != 0);
                assert(exists|j: int| 0 <= j < t.len() && t[j] == r);
                let w = choose|j: int| 0 <= j < t.len() && t[j] == r;
                assert(rows[w + 1] == r);
            }
        }
    }
}

/// Law: a row emitted to `N` distinct downstream queues gains exactly one
/// reference per listed queue — `emit`'s model step raises the row's
/// reference count by the number of queues whose task is listed, and leaves
/// every other row's count unchanged.
pub proof fn lemma_emit_occurrences(
    qs1: Seq<QueueModel>,
    qs2: Seq<QueueModel>,
    names: Seq<Seq<char>>,
    x: Seq<FieldModel>,
    r: Seq<FieldModel>,
)
    requires
        qs2.len() == qs1.len(),
        forall|qi: int|
            0 <= qi < qs1.len() ==> qs2[qi] == (if name_in(names, qs1[qi].task) {
                QueueModel { task: qs1[qi].task, rows: qs1[qi].rows.push(x) }
            } else {
                qs1[qi]
            }),
    ensures
        x == r ==> occurrences(qs2, r) == occurrences(qs1, r) + affected(qs1, names),
        x != r ==> occurrences(qs2, r) == occurrences(qs1, r),
    decreases qs1.len(),
{
    if qs1.len() > 0 {
        assert(qs2[0] == (if name_in(names, qs1[0].task) {
            QueueModel { task: qs1[0].task, rows: qs1[0].rows.push(x) }
        } else {
            qs1[0]
        }));
        if name_in(names, qs1[0].task) {
            lemma_count_push(qs1[0].rows, x, r);
        }
        let t1 = qs1.drop_first();
        let t2 = qs2.drop_first();
        assert forall|qi: int| 0 <= qi < t1.len() implies t2[qi] == (if name_in(
            names,
            t1[qi].task,
        ) {
            QueueModel { task: t1[qi].task, rows: t1[qi].rows.push(x) }
        } else {
            t1[qi]
        }) by {
            assert(t2[qi] == qs2[qi + 1]);
            assert(t1[qi] == qs1[qi + 1]);
        }
        lemma_emit_occurrences(t1, t2, names, x, r);
    }
}

/// Law: collecting a row from one queue releases exactly that one reference —
/// `collect_next`'s model step lowers the popped row's reference count by
/// one and leaves every other row's count unchanged.
pub proof fn lemma_collect_occurrences(
    qs1: Seq<QueueModel>,
    qs2: Seq<QueueModel>,
    qi: int,
    r: Seq<FieldModel>,
)
    requires
        qs2.len() == qs1.len(),
        0 <= qi < qs1.len(),
        qs1[qi].rows.len() > 0,
        qs2[qi] == (QueueModel { task: qs1[qi].task, rows: qs1[qi].rows.drop_first() }),
        forall|j: int| 0 <= j < qs1.len() && j != qi ==> qs2[j] == qs1[j],
    ensures
        occurrences(qs2, r) + (if qs1[qi].rows[0] == r {
            1nat
        } else {
            0nat
        }) == occurrences(qs1, r),
    decreases qs1.len(),
{
    if qi == 0 {
        assert(occurrences(qs2, r) == count_in_rows(qs2[0].rows, r) + occurrences(
            qs2.drop_first(),
            r,
        ));
        assert(qs2.drop_first() =~= qs1.drop_first());
    } else {
        let t1 = qs1.drop_first();
        let t2 = qs2.drop_first();
        assert(t2[qi - 1] == qs2[qi]);
        assert(t1[qi - 1] == qs1[qi]);
        assert forall|j: int| 0 <= j < t1.len() && j != qi - 1 implies t2[j] == t1[j] by {
            assert(t2[j] == qs2[j + 1]);
            assert(t1[j] == qs1[j + 1]);
        }
        lemma_collect_occurrences(t1, t2, qi - 1, r);
        assert(qs2[0] == qs1[0]);
    }
}

/// Law: a purge (`reset`) releases every reference — with all queues empty,
/// no row holds a reference any more.
pub proof fn lemma_reset_releases_all(qs: Seq<QueueModel>, r: Seq<FieldModel>)
    requires
        forall|qi: int| 0 <= qi < qs.len() ==> #[trigger] qs[qi].rows.len() == 0,
    ensures
        occurrences(qs, r) == 0,
    decreases qs.len(),
{
    if qs.len() > 0 {
        assert(qs[0].rows.len() == 0);
        let t = qs.drop_first();
        assert forall|qi: int| 0 <= qi < t.len() implies #[trigger] t[qi].rows.len() == 0 by {
            assert(t[qi] == qs[qi + 1]);
        }
        lemma_reset_releases_all(t, r);
    }
}

/// Law: a row's memory is released exactly when no queue holds a reference
/// to it any more — its reference count is zero iff it sits in no queue.
pub proof fn lemma_release_iff_no_reference(qs: Seq<QueueModel>, r: Seq<FieldModel>)
    ensures
        (occurrences(qs, r) == 0) == (forall|qi: int, j: int|
            0 <= qi < qs.len() && 0 <= j < qs[qi].rows.len() ==> qs[qi].rows[j] != r),
    decreases qs.len(),
{
    if qs.len() > 0 {
        lemma_count_zero_iff_absent(qs[0].rows, r);
        let t = qs.drop_first();
        lemma_release_iff_no_reference(t, r);
        if occurrences(qs, r) == 0 {
            assert forall|qi: int, j: int|
                0 <= qi < qs.len() && 0 <= j < qs[qi].rows.len() implies qs[qi].rows[j] != r by {
                if qi == 0 {
                } else {
                    assert(t[qi - 1] == qs[qi]);
                }
            }
        } else {
            if count_in_rows(qs[0].rows, r) > 0 {
                let w = choose|j: int| 0 <= j < qs[0].rows.len() && qs[0].rows[j] == r;
                assert(qs[0].rows[w] == r);
            } else {
                let (wq, wj) = choose|wq: int, wj: int|
                    0 <= wq < t.len() && 0 <= wj < t[wq].rows.len() && t[wq].rows[wj] == r;
                assert(qs[wq + 1].rows[wj] == r);
            }
        }
    }
}

// ---------------------------------------------------------------------------
// Window-queue operations.
//
// A window queue is a queue whose consumer aggregates by rowtime. Within a
// single producer the rowtime is non-decreasing; across producers no order
// is guaranteed, so range eviction and range collection go by each row's
// own rowtime, never by queue position.
// ---------------------------------------------------------------------------

/// The rowtime of a row: the value of its first TIMESTAMP field, if any.
pub open spec fn spec_rowtime(fields: Seq<FieldModel>) -> Option<Seq<char>>
    decreases fields.len(),
{
    if fields.len() == 0 {
        Option::None
    } else {
        match fields[0].value {
            ValModel::Ts { t } => Option::Some(t),
            _ => spec_rowtime(fields.drop_first()),
        }
    }
}

/// True when the row's rowtime lies strictly before `bound`. A row without
/// a rowtime is never older than anything: it is not windowed.
pub open spec fn row_older_than(fields: Seq<FieldModel>, bound: Seq<char>) -> bool {
    match spec_rowtime(fields) {
        Option::Some(t) => text_lt(t, bound),
        Option::None => false,
    }
}

/// The rows to keep when evicting everything older than `bound`.
pub open spec fn not_older_pred(bound: Seq<char>) -> spec_fn(Seq<FieldModel>) -> bool {
    |r: Seq<FieldModel>| !row_older_than(r, bound)
}

/// True when the row's rowtime lies in `[lo, hi)`.
pub open spec fn row_in_window(fields: Seq<FieldModel>, lo: Seq<char>, hi: Seq<char>) -> bool {
    match spec_rowtime(fields) {
        Option::Some(t) => !text_lt(t, lo) && text_lt(t, hi),
        Option::None => false,
    }
}

/// The rows of a window `[lo, hi)`.
pub open spec fn in_window_pred(lo: Seq<char>, hi: Seq<char>) -> spec_fn(Seq<FieldModel>) -> bool {
    |r: Seq<FieldModel>| row_in_window(r, lo, hi)
}

/// The rowtime of `row`, if one of its fields is a TIMESTAMP.
pub fn rowtime_of(row: &Row) -> (r: Option<&SpringTimestamp>)
    ensures
        match r {
            Some(t) => spec_rowtime(row@) == Option::Some(t@),
            None => spec_rowtime(row@) is None,
        },
{
    let ghost all = row@;
    proof {
        assert(all.skip(0) =~= all);
    }
    let mut i: usize = 0;
    while i < row.fields.len()
        invariant
            i <= row.fields@.len(),
            all == row@,
            spec_rowtime(all) == spec_rowtime(all.skip(i as int)),
            forall|j: int|
                0 <= j < row.fields@.len() ==> all[j] == #[trigger] row.fields@[j]@,
        decreases row.fields.len() - i,
    {
        proof {
            assert(all.skip(i as int)[0] == all[i as int]);
            assert(all.skip(i as int).drop_first() =~= all.skip(i + 1));
        }
        match &row.fields[i].value {
            SqlValue::Timestamp { t } => {
                return Some(t);
            },
            _ => {},
        }
        i += 1;
    }
    proof {
        assert(all.skip(all.len() as int) =~= Seq::<FieldModel>::empty());
    }
    None
}

proof fn lemma_rows_filter_push(
    s: Seq<Seq<FieldModel>>,
    pred: spec_fn(Seq<FieldModel>) -> bool,
    x: Seq<FieldModel>,
)
    ensures
        s.push(x).filter(pred) == (if pred(x) {
            s.filter(pred).push(x)
        } else {
            s.filter(pred)
        }),
{
    reveal(Seq::filter);
    assert(s.push(x).drop_last() =~= s);
}

impl NaiveRowRepository {
    /// Evict from every window queue the rows whose rowtime lies strictly
    /// before `bound`, keeping the rest in order.
    pub fn purge_older_than(&mut self, bound: &SpringTimestamp)
        ensures
            final(self)@.len() == old(self)@.len(),
            forall|qi: int|
                0 <= qi < final(self)@.len() ==> final(self)@[qi] == (QueueModel {
                    task: old(self)@[qi].task,
                    rows: old(self)@[qi].rows.filter(not_older_pred(bound@)),
                }),
    {
        let ghost base = self@;
        let ghost bview = bound@;
        let mut qi: usize = 0;
        while qi < self.queues.len()
            invariant
                qi <= self.queues@.len(),
                self@.len() == base.len(),
                self.queues@.len() == base.len(),
                bview == bound@,
                forall|j: int| qi <= j < self@.len() ==> #[trigger] self@[j] == base[j],
                forall|j: int|
                    0 <= j < qi ==> #[trigger] self@[j] == (QueueModel {
                        task: base[j].task,
                        rows: base[j].rows.filter(not_older_pred(bview)),
                    }),
            decreases self.queues.len() - qi,
        {
            let ghost qrows = self@[qi as int].rows;
            let mut kept: Vec<Arc<Row>> = Vec::new();
            let mut k: usize = 0;
            proof {
                assert(qrows.subrange(0, 0) =~= Seq::<Seq<FieldModel>>::empty());
                assert(qrows.subrange(0, 0).filter(not_older_pred(bview))
                    =~= Seq::<Seq<FieldModel>>::empty());
            }
            while k < self.queues[qi].rows.len()
                invariant
                    qi < self.queues@.len(),
                    k <= self.queues@[qi as int].rows@.len(),
                    qrows == self.queues@[qi as int]@.rows,
                    qrows.len() == self.queues@[qi as int].rows@.len(),
                    bview == bound@,
                    kept@.map_values(|r: Arc<Row>| r@) =~= qrows.subrange(0, k as int).filter(
                        not_older_pred(bview),
                    ),
                decreases self.queues@[qi as int].rows@.len() - k,
            {
                let ghost prev = kept@;
                proof {
                    assert(qrows.subrange(0, k + 1) =~= qrows.subrange(0, k as int).push(
                        qrows[k as int],
                    ));
                    lemma_rows_filter_push(
                        qrows.subrange(0, k as int),
                        not_older_pred(bview),
                        qrows[k as int],
                    );
                }
                let arc = &self.queues[qi].rows[k];
                let older: bool = match rowtime_of(arc) {
                    Some(t) => t.lt_ts(bound),
                    None => false,
                };
                proof {
                    assert((*arc)@ == qrows[k as int]);
                    assert(older == row_older_than(qrows[k as int], bview));
                assert(not_older_pred(bview)(qrows[k as int]) == !older);
                }
                if !older {
                    let shared = share_row(arc);
                    kept.push(shared);
                    proof {
                        assert(kept@.map_values(|r: Arc<Row>| r@) =~= prev.map_values(
                            |r: Arc<Row>| r@,
                        ).push(qrows[k as int]));
                    }
                }
                k += 1;
            }
            proof {
                assert(qrows.subrange(0, qrows.len() as int) =~= qrows);
            }
            let ghost before = self@;
            self.queues[qi].rows = kept;
            proof {
                assert(self@[qi as int].task == before[qi as int].task);
                assert(self@[qi as int].rows =~= qrows.filter(not_older_pred(bview)));
                assert(forall|j: int|
                    0 <= j < self@.len() && j != qi ==> self@[j] == #[trigger] before[j]);
                assert(before[qi as int] == base[qi as int]);
                assert(qrows == base[qi as int].rows);
                assert(self@[qi as int] == (QueueModel {
                    task: base[qi as int].task,
                    rows: base[qi as int].rows.filter(not_older_pred(bview)),
                }));
                assert forall|j: int| qi + 1 <= j < self@.len() implies self@[j] == base[j] by {
                    assert(self@[j] == before[j]);
                }
                assert forall|j: int| 0 <= j < qi + 1 implies self@[j] == (QueueModel {
                    task: base[j].task,
                    rows: base[j].rows.filter(not_older_pred(bview)),
                }) by {
                    if j < qi {
                        assert(self@[j] == before[j]);
                    }
                }
            }
            qi += 1;
        }
    }

    /// The rows of `task`'s window queue whose rowtime lies in `[lo, hi)`,
    /// in queue order; the queue itself is left untouched.
    pub fn collect_window(&self, task: &TaskId, lo: &SpringTimestamp, hi: &SpringTimestamp) -> (r:
        Vec<Row>)
        requires
            registered(self@, task@),
            repo_wf(self@),
        ensures
            forall|qi: int|
                0 <= qi < self@.len() && #[trigger] self@[qi].task == task@ ==> r@.map_values(
                    |row: Row| row@,
                ) == self@[qi].rows.filter(in_window_pred(lo@, hi@)),
    {
        let qi = match self.queue_index(task) {
            Some(qi) => qi,
            None => {
                proof {
                    assert(false);
                }
                return Vec::new();
            },
        };
        let ghost qrows = self@[qi as int].rows;
        let ghost loview = lo@;
        let ghost hiview = hi@;
        let mut out: Vec<Row> = Vec::new();
        let mut k: usize = 0;
        proof {
            assert(qrows.subrange(0, 0) =~= Seq::<Seq<FieldModel>>::empty());
            assert(qrows.subrange(0, 0).filter(in_window_pred(loview, hiview))
                =~= Seq::<Seq<FieldModel>>::empty());
        }
        while k < self.queues[qi].rows.len()
            invariant
                qi < self.queues@.len(),
                k <= self.queues@[qi as int].rows@.len(),
                qrows == self.queues@[qi as int]@.rows,
                qrows.len() == self.queues@[qi as int].rows@.len(),
                loview == lo@,
                hiview == hi@,
                out@.map_values(|row: Row| row@) =~= qrows.subrange(0, k as int).filter(
                    in_window_pred(loview, hiview),
                ),
            decreases self.queues@[qi as int].rows@.len() - k,
        {
            let ghost prev = out@;
            proof {
                assert(qrows.subrange(0, k + 1) =~= qrows.subrange(0, k as int).push(
                    qrows[k as int],
                ));
                lemma_rows_filter_push(
                    qrows.subrange(0, k as int),
                    in_window_pred(loview, hiview),
                    qrows[k as int],
                );
            }
            let arc = &self.queues[qi].rows[k];
            let inside: bool = match rowtime_of(arc) {
                Some(t) => !t.lt_ts(lo) && t.lt_ts(hi),
                None => false,
            };
            proof {
                assert((*arc)@ == qrows[k as int]);
                assert(inside == row_in_window(qrows[k as int], loview, hiview));
                assert(in_window_pred(loview, hiview)(qrows[k as int]) == inside);
            }
            if inside {
                let row = (**arc).clone();
                out.push(row);
                proof {
                    assert(out@.map_values(|row2: Row| row2@) =~= prev.map_values(
                        |row2: Row| row2@,
                    ).push(qrows[k as int]));
                }
            }
            k += 1;
        }
        proof {
            assert(qrows.subrange(0, qrows.len() as int) =~= qrows);
        }
        out
    }
}

} // verus!
