//! The memory-pressure state machine.
//!
//! A three-state machine (Moderate, Severe, Critical) driven by the sampled
//! percentage `used_bytes * 100 / upper_limit_bytes`. It governs which
//! scheduler the generic workers run and when intermediate rows are purged.
//! Distinct up and down thresholds (hysteresis) keep it from oscillating
//! when memory use is constant.

use vstd::prelude::*;

use crate::event_queue::Event;
use crate::event_queue::EventQueue;
use crate::row_repository::NaiveRowRepository;
use crate::row_repository::QueueModel;
use crate::scheduler::SchedulerKind;

verus! {

/// Memory pressure classification.
#[derive(Clone, Copy, PartialEq, Eq, Structural, Debug)]
pub enum MemoryState {
    /// Plenty of headroom; throughput first.
    Moderate,
    /// Over the up-threshold; drain the largest buffers first.
    Severe,
    /// Nearly at the ceiling; intermediate rows are purged.
    Critical,
}

/// The four transition thresholds, as percentages of `upper_limit_bytes`.
#[derive(Clone, Copy, PartialEq, Eq, Structural, Debug)]
pub struct MemoryThresholds {
    pub moderate_to_severe_percent: u8,
    pub severe_to_critical_percent: u8,
    pub critical_to_severe_percent: u8,
    pub severe_to_moderate_percent: u8,
}

/// Hysteresis: each down-threshold sits at or below its up-threshold.
pub open spec fn thresholds_wf(th: MemoryThresholds) -> bool {
    &&& th.severe_to_moderate_percent <= th.moderate_to_severe_percent
    &&& th.critical_to_severe_percent <= th.severe_to_critical_percent
}

/// What one sampling tick decided.
#[derive(Clone, Copy, PartialEq, Eq, Structural, Debug)]
pub struct Transition {
    /// The state after the tick.
    pub state: MemoryState,
    /// The scheduler the generic workers must switch to, when entering a
    /// state changes it.
    pub swap_scheduler: Option<SchedulerKind>,
    /// True exactly on entry into Critical: all intermediate (non-sink)
    /// queues must be drained.
    pub purge: bool,
}

/// The transition relation of one sampling tick at `percent` memory use.
pub open spec fn spec_transition(s: MemoryState, percent: u64, th: MemoryThresholds) -> Transition {
    match s {
        MemoryState::Moderate => {
            if percent >= th.moderate_to_severe_percent as u64 {
                Transition {
                    state: MemoryState::Severe,
                    swap_scheduler: Some(SchedulerKind::MemoryReducing),
                    purge: false,
                }
            } else {
                Transition { state: MemoryState::Moderate, swap_scheduler: None, purge: false }
            }
        },
        MemoryState::Severe => {
            if percent >= th.severe_to_critical_percent as u64 {
                Transition {
                    state: MemoryState::Critical,
                    swap_scheduler: Some(SchedulerKind::MemoryReducing),
                    purge: true,
                }
            } else if percent < th.severe_to_moderate_percent as u64 {
                Transition {
                    state: MemoryState::Moderate,
                    swap_scheduler: Some(SchedulerKind::FlowEfficient),
                    purge: false,
                }
            } else {
                Transition { state: MemoryState::Severe, swap_scheduler: None, purge: false }
            }
        },
        MemoryState::Critical => {
            if percent < th.critical_to_severe_percent as u64 {
                Transition {
                    state: MemoryState::Severe,
                    swap_scheduler: Some(SchedulerKind::MemoryReducing),
                    purge: false,
                }
            } else {
                Transition { state: MemoryState::Critical, swap_scheduler: None, purge: false }
            }
        },
    }
}

/// The state machine, sampled once per
/// `memory_state_transition_interval_msec`.
pub struct MemoryStateMachine {
    pub state: MemoryState,
    pub thresholds: MemoryThresholds,
}

impl MemoryStateMachine {
    /// Starts in Moderate.
    pub fn new(thresholds: MemoryThresholds) -> (r: Self)
        ensures
            r.state == MemoryState::Moderate,
            r.thresholds == thresholds,
    {
        MemoryStateMachine { state: MemoryState::Moderate, thresholds }
    }

    /// One sampling tick: classify `percent` and move accordingly.
    pub fn on_memory_usage(&mut self, percent: u64) -> (r: Transition)
        ensures
            r == spec_transition(old(self).state, percent, old(self).thresholds),
            final(self).state == r.state,
            final(self).thresholds == old(self).thresholds,
    {
        let th = self.thresholds;
        let r = match self.state {
            MemoryState::Moderate => {
                if percent >= th.moderate_to_severe_percent as u64 {
                    Transition {
                        state: MemoryState::Severe,
                        swap_scheduler: Some(SchedulerKind::MemoryReducing),
                        purge: false,
                    }
                } else {
                    Transition { state: MemoryState::Moderate, swap_scheduler: None, purge: false }
                }
            },
            MemoryState::Severe => {
                if percent >= th.severe_to_critical_percent as u64 {
                    Transition {
                        state: MemoryState::Critical,
                        swap_scheduler: Some(SchedulerKind::MemoryReducing),
                        purge: true,
                    }
                } else if percent < th.severe_to_moderate_percent as u64 {
                    Transition {
                        state: MemoryState::Moderate,
                        swap_scheduler: Some(SchedulerKind::FlowEfficient),
                        purge: false,
                    }
                } else {
                    Transition { state: MemoryState::Severe, swap_scheduler: None, purge: false }
                }
            },
            MemoryState::Critical => {
                if percent < th.critical_to_severe_percent as u64 {
                    Transition {
                        state: MemoryState::Severe,
                        swap_scheduler: Some(SchedulerKind::MemoryReducing),
                        purge: false,
                    }
                } else {
                    Transition { state: MemoryState::Critical, swap_scheduler: None, purge: false }
                }
            },
        };
        self.state = r.state;
        r
    }
}

impl MemoryStateMachine {
    /// One full sampling tick: classify `percent`, publish the scheduler
    /// swap on the bus when a state is entered, and on Critical entry drain
    /// the intermediate (non-sink) queues within this same tick.
    pub fn on_memory_tick(
        &mut self,
        percent: u64,
        intermediate_queues: &mut NaiveRowRepository,
        bus: &mut EventQueue,
    ) -> (r: Transition)
        ensures
            r == spec_transition(old(self).state, percent, old(self).thresholds),
            final(self).state == r.state,
            final(self).thresholds == old(self).thresholds,
            match r.swap_scheduler {
                Some(kind) => final(bus)@ == old(bus)@.push(Event::UpdateScheduler { kind }),
                None => final(bus)@ == old(bus)@,
            },
            !r.purge ==> final(intermediate_queues)@ == old(intermediate_queues)@,
            r.purge ==> final(intermediate_queues)@.len() == old(intermediate_queues)@.len()
                && (forall|qi: int|
                0 <= qi < final(intermediate_queues)@.len() ==> final(intermediate_queues)@[qi]
                    == (QueueModel {
                    task: old(intermediate_queues)@[qi].task,
                    rows: Seq::<Seq<crate::row::FieldModel>>::empty(),
                })),
    {
        let r = self.on_memory_usage(percent);
        if r.purge {
            intermediate_queues.purge_all();
        }
        match r.swap_scheduler {
            Some(kind) => {
                bus.publish(Event::UpdateScheduler { kind });
            },
            None => {},
        }
        r
    }
}

/// Law (hysteresis): with well-formed thresholds and constant memory use,
/// the machine never oscillates — once a tick has moved it out of a state,
/// the next tick at the same percentage cannot move it back.
pub proof fn lemma_hysteresis_no_oscillation(s: MemoryState, percent: u64, th: MemoryThresholds)
    requires
        thresholds_wf(th),
    ensures
        ({
            let s1 = spec_transition(s, percent, th).state;
            let s2 = spec_transition(s1, percent, th).state;
            s1 != s ==> s2 != s
        }),
{
}

/// Law (stabilization): with well-formed thresholds and constant memory
/// use, the machine reaches a fixed state within two ticks.
pub proof fn lemma_constant_memory_stabilizes(s: MemoryState, percent: u64, th: MemoryThresholds)
    requires
        thresholds_wf(th),
    ensures
        ({
            let s2 = spec_transition(spec_transition(s, percent, th).state, percent, th).state;
            spec_transition(s2, percent, th).state == s2
        }),
{
}

/// Law (purge on Critical entry): a tick purges exactly when it moves the
/// machine from Severe into Critical, and never announces a purge without
/// also entering Critical.
pub proof fn lemma_purge_iff_critical_entry(s: MemoryState, percent: u64, th: MemoryThresholds)
    ensures
        spec_transition(s, percent, th).purge == (s == MemoryState::Severe
            && spec_transition(s, percent, th).state == MemoryState::Critical),
{
}

} // verus!
