//! The operations a pump's query plan is made of.

use vstd::prelude::*;

use crate::expression::Expression;
use crate::expression::FieldPointer;
use crate::name::StreamName;

verus! {

/// A span of event time, in whole seconds.
#[derive(Clone, Copy, PartialEq, Eq, Structural)]
pub struct WindowDuration {
    pub secs: u64,
}

/// One operation of a pump's query plan, evaluated in sequence over a
/// single input row or window.
pub enum QueryPlanOperation {
    /// Fetch the next row from the named inbound queue.
    Collect { stream: StreamName },
    /// Evaluate each expression against the current row.
    EvalValueExpr { expressions: Vec<Expression> },
    /// Materialize a new row containing only the selected columns.
    Projection { field_pointers: Vec<FieldPointer> },
    /// Attach the row to the window keyed by its rowtime, floored to the
    /// window length; aggregated rows come out when the window closes.
    TimeBasedSlidingWindow { lower_bound: WindowDuration },
}

} // verus!
