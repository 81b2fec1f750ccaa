//! Aggregation of the containers' terminal statuses into a verdict on the pod.

use vstd::prelude::*;
use crate::status::{Status, StatusView};

verus! {

/// What the aggregator concludes from one status.
#[derive(Debug, PartialEq, Eq)]
pub enum Signal {
    /// Nothing is decided yet.
    Continue,
    /// The last outstanding container has stopped without an error.
    AllComplete,
    /// A container stopped with an error; `message` is the one it reported.
    Fatal { message: String },
}

/// Mathematical value of a [`Signal`].
pub enum SignalView {
    Continue,
    AllComplete,
    Fatal { message: Seq<char> },
}

impl View for Signal {
    type V = SignalView;

    open spec fn view(&self) -> SignalView {
        match self {
            Signal::Continue => SignalView::Continue,
            Signal::AllComplete => SignalView::AllComplete,
            Signal::Fatal { message } => SignalView::Fatal { message: message@ },
        }
    }
}

/// Mathematical value of an [`AggregationState`]: how many containers have
/// been counted as successfully stopped, out of how many.
pub struct AggregateView {
    pub completed: nat,
    pub total: nat,
}

impl AggregateView {
    /// The state at entry: nothing counted yet.
    pub open spec fn start(total: nat) -> AggregateView {
        AggregateView { completed: 0, total }
    }

    /// The count never exceeds the number of containers.
    pub open spec fn wf(self) -> bool {
        self.completed <= self.total
    }

    /// How many containers are still to stop.
    pub open spec fn outstanding(self) -> nat {
        if self.completed <= self.total {
            (self.total - self.completed) as nat
        } else {
            0
        }
    }

    /// The aggregation rule. A failed termination is fatal and carries its
    /// message. A successful termination is counted while containers are
    /// outstanding, and completes the pod when it is the last of them. No other
    /// status changes or decides anything.
    pub open spec fn observe(self, status: StatusView) -> (AggregateView, SignalView) {
        match status {
            StatusView::Terminated { message, failed, .. } => {
                if failed {
                    (self, SignalView::Fatal { message })
                } else if self.completed < self.total {
                    let counted = AggregateView { completed: self.completed + 1, total: self.total };
                    if counted.completed == counted.total {
                        (counted, SignalView::AllComplete)
                    } else {
                        (counted, SignalView::Continue)
                    }
                } else {
                    (self, SignalView::Continue)
                }
            },
            _ => (self, SignalView::Continue),
        }
    }
}

/// Counter state of one pass through the running state.
#[derive(Debug)]
pub struct AggregationState {
    completed: usize,
    total: usize,
}

impl View for AggregationState {
    type V = AggregateView;

    closed spec fn view(&self) -> AggregateView {
        AggregateView { completed: self.completed as nat, total: self.total as nat }
    }
}

impl AggregationState {
    /// Holds of every aggregation state: the count is within the total.
    #[verifier::type_invariant]
    pub open spec fn counted_within_total(self) -> bool {
        self@.wf()
    }

    /// The state at entry, for a pod of `total_containers` containers.
    pub fn new(total_containers: usize) -> (state: AggregationState)
        ensures
            state@ == AggregateView::start(total_containers as nat),
    {
        AggregationState { completed: 0, total: total_containers }
    }

    /// How many containers have been counted as successfully stopped.
    pub fn completed(&self) -> (count: usize)
        ensures
            count == self@.completed,
            count <= self@.total,
    {
        proof {
            use_type_invariant(self);
        }
        self.completed
    }

    /// How many containers the pod has.
    pub fn total(&self) -> (count: usize)
        ensures
            count == self@.total,
    {
        self.total
    }

    /// Applies the aggregation rule to one status.
    pub fn observe(&mut self, status: &Status) -> (signal: Signal)
        ensures
            (final(self)@, signal@) == old(self)@.observe(status@),
            final(self)@.wf(),
    {
        proof {
            use_type_invariant(&*self);
        }
        match status {
            Status::Terminated { message, failed, .. } => {
                if *failed {
                    Signal::Fatal { message: message.clone() }
                } else if self.completed < self.total {
                    self.completed = self.completed + 1;
                    if self.completed == self.total {
                        Signal::AllComplete
                    } else {
                        Signal::Continue
                    }
                } else {
                    Signal::Continue
                }
            },
            _ => Signal::Continue,
        }
    }
}

} // verus!
