//! The coordination bus: a FIFO queue of pipeline and metric events.
//!
//! Delivery is best-effort; ordering is FIFO per queue. Late subscribers
//! miss prior events.

use vstd::prelude::*;

use crate::scheduler::SchedulerKind;

verus! {

/// An event published on the bus.
#[derive(Clone, Copy, PartialEq, Eq, Structural, Debug)]
pub enum Event {
    /// A new pipeline snapshot was applied; workers re-read the graph.
    UpdatePipeline,
    /// Generic workers must swap their scheduler to `kind`.
    UpdateScheduler { kind: SchedulerKind },
    /// Periodic metrics summary, for observability.
    ReportMetricsSummary { used_percent: u64 },
    /// Every worker exits its loop before the next step.
    Stop,
}

/// A FIFO event queue.
pub struct EventQueue {
    pub events: Vec<Event>,
}

impl View for EventQueue {
    type V = Seq<Event>;

    open spec fn view(&self) -> Seq<Event> {
        self.events@
    }
}

impl EventQueue {
    pub fn new() -> (r: Self)
        ensures
            r@ == Seq::<Event>::empty(),
    {
        let r = EventQueue { events: Vec::new() };
        proof {
            assert(r@ =~= Seq::<Event>::empty());
        }
        r
    }

    /// Append `e` at the back of the queue.
    pub fn publish(&mut self, e: Event)
        ensures
            final(self)@ == old(self)@.push(e),
    {
        self.events.push(e);
    }

    /// Pop the oldest event, if any.
    pub fn poll(&mut self) -> (r: Option<Event>)
        ensures
            match r {
                Some(e) => old(self)@.len() > 0 && e == old(self)@[0] && final(self)@ == old(
                    self,
                )@.drop_first(),
                None => old(self)@.len() == 0 && final(self)@ == old(self)@,
            },
    {
        if self.events.len() == 0 {
            return None;
        }
        let e = self.events.remove(0);
        proof {
            assert(self@ =~= old(self)@.drop_first());
        }
        Some(e)
    }
}

} // verus!
