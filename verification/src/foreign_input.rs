//! Pulling rows from a foreign source into the engine.
//!
//! An input server hands over one JSON object per call, or times out. The
//! pump turns each object into a row of its destination stream and moves
//! rows on into the row repository. The TCP-backed server lives in the I/O
//! layer; it implements [`InputServerActive`] and hands the pump the same
//! plain objects.

use vstd::prelude::*;

use crate::error::SpringError;
use crate::json::JsonFieldModel;
use crate::json::JsonObject;
use crate::json::into_row;
use crate::json::spec_into_row;
use crate::row::Row;
use crate::row_repository::NaiveRowRepository;
use crate::row_repository::QueueModel;
use crate::row_repository::name_in;
use crate::row_repository::registered;
use crate::row_repository::repo_wf;
use crate::stream_model::StreamModel;
use crate::task::TaskId;

verus! {

/// A live foreign input server: each call hands over the next pending row
/// object, FIFO, or reports a timeout when none is pending.
pub trait InputServerActive: Sized {
    /// The row objects still to come, oldest first.
    spec fn pending(&self) -> Seq<Seq<JsonFieldModel>>;

    /// The next row object.
    ///
    /// # Failures
    ///
    /// - `SpringError::ForeignInputTimeout` when no row arrives within the
    ///   configured timeout.
    fn next_row(&mut self) -> (r: Result<JsonObject, SpringError>)
        ensures
            old(self).pending().len() > 0 ==> (r matches Ok(o) && o@ == old(self).pending()[0]
                && final(self).pending() == old(self).pending().drop_first()),
            old(self).pending().len() == 0 ==> (r matches Err(e) && e
                matches SpringError::ForeignInputTimeout && final(self).pending() == old(
                self,
            ).pending()),
    ;
}

/// An input server over a fixed batch of row objects, handed out FIFO:
/// the in-memory stand-in for a network server in tests and examples.
pub struct FifoInputServer {
    pub rows: Vec<JsonObject>,
}

impl FifoInputServer {
    /// A server that will hand out `rows`, oldest first.
    pub fn new_fifo_batch(rows: Vec<JsonObject>) -> (r: Self)
        ensures
            r.pending() == rows@.map_values(|o: JsonObject| o@),
    {
        FifoInputServer { rows }
    }
}

impl InputServerActive for FifoInputServer {
    open spec fn pending(&self) -> Seq<Seq<JsonFieldModel>> {
        self.rows@.map_values(|o: JsonObject| o@)
    }

    fn next_row(&mut self) -> (r: Result<JsonObject, SpringError>) {
        if self.rows.len() == 0 {
            proof {
                assert(self.pending() =~= old(self).pending());
            }
            return Err(SpringError::ForeignInputTimeout);
        }
        let o = self.rows.remove(0);
        proof {
            assert(self.pending() =~= old(self).pending().drop_first());
        }
        Ok(o)
    }
}

/// Pulls rows of one foreign stream out of an input server.
pub struct ForeignInputPump<S: InputServerActive> {
    pub in_server: S,
    pub dest_stream: StreamModel,
}

impl<S: InputServerActive> ForeignInputPump<S> {
    pub fn new(in_server: S, dest_stream: StreamModel) -> (r: Self)
        ensures
            r.in_server == in_server,
            r.dest_stream == dest_stream,
    {
        ForeignInputPump { in_server, dest_stream }
    }

    /// Pulls the next foreign row and reads it as a row of the destination
    /// stream.
    ///
    /// # Failures
    ///
    /// - `SpringError::ForeignInputTimeout` when the server has no row.
    /// - `SpringError::Sql` when the row object does not fit the stream's
    ///   schema; the object is consumed and dropped.
    pub fn _collect_next(&mut self) -> (r: Result<Row, SpringError>)
        ensures
            final(self).dest_stream == old(self).dest_stream,
            old(self).in_server.pending().len() == 0 ==> (r matches Err(e) && e
                matches SpringError::ForeignInputTimeout && final(self).in_server.pending() == old(
                self,
            ).in_server.pending()),
            old(self).in_server.pending().len() > 0 ==> final(self).in_server.pending() == old(
                self,
            ).in_server.pending().drop_first() && (match r {
                Ok(row) => spec_into_row(
                    old(self).in_server.pending()[0],
                    old(self).dest_stream@.columns,
                ) == Option::Some(row@),
                Err(e) => spec_into_row(
                    old(self).in_server.pending()[0],
                    old(self).dest_stream@.columns,
                ) is None && e matches SpringError::Sql { .. },
            }),
    {
        let foreign_row = match self.in_server.next_row() {
            Ok(o) => o,
            Err(e) => {
                return Err(e);
            },
        };
        into_row(&foreign_row, &self.dest_stream)
    }

    /// Moves a collected row to its downstream tasks through the row
    /// repository, sharing one reference per queue.
    pub fn _emit(
        &self,
        row: Row,
        repo: &mut NaiveRowRepository,
        downstream_tasks: &[TaskId],
    ) -> (r: Result<(), SpringError>)
        requires
            downstream_tasks@.len() > 0,
            forall|k: int|
                0 <= k < downstream_tasks@.len() ==> registered(
                    old(repo)@,
                    #[trigger] downstream_tasks@[k]@,
                ),
            forall|k1: int, k2: int|
                0 <= k1 < k2 < downstream_tasks@.len() ==> downstream_tasks@[k1]@
                    != downstream_tasks@[k2]@,
            repo_wf(old(repo)@),
        ensures
            r is Ok,
            repo_wf(final(repo)@),
            final(repo)@.len() == old(repo)@.len(),
            forall|qi: int|
                0 <= qi < final(repo)@.len() ==> final(repo)@[qi] == (if name_in(
                    downstream_tasks@.map_values(|t: TaskId| t@),
                    old(repo)@[qi].task,
                ) {
                    QueueModel { task: old(repo)@[qi].task, rows: old(repo)@[qi].rows.push(row@) }
                } else {
                    old(repo)@[qi]
                }),
    {
        repo.emit(row, downstream_tasks)
    }
}

} // verus!
