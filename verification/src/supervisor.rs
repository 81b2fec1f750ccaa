//! The running state of a pod, as a machine that is fed one event at a time.
//!
//! The machine never waits and never writes. It says what is to be done next
//! (take the next event from the status channel, write a status to the status
//! store, or leave the running state), and is told how that went.

use vstd::prelude::*;
use crate::aggregator::{AggregateView, AggregationState, Signal, SignalView};
use crate::phase::{make_status, status_patch, Phase, StatusError};
use crate::reporter::{outcome_view, ReportError, ReportErrorView, ReportRequest, ReportRequestView};
use crate::status::{StatusEvent, StatusEventView};
use crate::transition::{Transition, TransitionView};

verus! {

/// What has happened outside the machine.
#[derive(Debug, PartialEq, Eq)]
pub enum Event {
    /// The status channel delivered an event.
    Status(StatusEvent),
    /// The status channel has closed: there will be no more events.
    Closed,
    /// The write to the status store has ended, well or badly.
    Reported(Result<(), ReportError>),
}

/// Mathematical value of an [`Event`].
pub enum EventView {
    Status(StatusEventView),
    Closed,
    Reported(Result<(), ReportErrorView>),
}

impl View for Event {
    type V = EventView;

    open spec fn view(&self) -> EventView {
        match self {
            Event::Status(event) => EventView::Status(event@),
            Event::Closed => EventView::Closed,
            Event::Reported(outcome) => EventView::Reported(outcome_view(*outcome)),
        }
    }
}

/// What is to be done next.
#[derive(Debug, PartialEq, Eq)]
pub enum Action {
    /// Wait for the next event of the status channel.
    Receive,
    /// Write this status to the status store, once.
    Report(ReportRequest),
    /// Leave the running state with this transition.
    Finish(Transition),
}

/// Mathematical value of an [`Action`].
pub enum ActionView {
    Receive,
    Report(ReportRequestView),
    Finish(TransitionView),
}

impl View for Action {
    type V = ActionView;

    open spec fn view(&self) -> ActionView {
        match self {
            Action::Receive => ActionView::Receive,
            Action::Report(request) => ActionView::Report(request@),
            Action::Finish(transition) => ActionView::Finish(transition@),
        }
    }
}

/// What the machine is waiting for.
#[derive(Debug)]
enum Stage {
    Receiving,
    Reporting(ReportRequest),
    Finished(Transition),
}

/// Mathematical value of what the machine is waiting for.
pub enum StageView {
    /// The next event of the status channel.
    Receiving,
    /// The end of this write to the status store.
    Reporting(ReportRequestView),
    /// Nothing: the transition has been decided.
    Finished(TransitionView),
}

/// Mathematical value of a [`Running`].
pub struct RunningView {
    pub aggregate: AggregateView,
    pub stage: StageView,
}

impl RunningView {
    /// The machine at entry into the running state.
    pub open spec fn start(total: nat) -> RunningView {
        RunningView { aggregate: AggregateView::start(total), stage: StageView::Receiving }
    }

    /// The count never exceeds the number of containers.
    pub open spec fn wf(self) -> bool {
        self.aggregate.wf()
    }

    /// The action that the machine is waiting to hear about.
    pub open spec fn due(self) -> ActionView {
        match self.stage {
            StageView::Receiving => ActionView::Receive,
            StageView::Reporting(request) => ActionView::Report(request),
            StageView::Finished(transition) => ActionView::Finish(transition),
        }
    }

    /// The machine has decided the transition.
    pub open spec fn finished(self) -> bool {
        self.stage is Finished
    }

    /// Whether `event` is the one that the machine is waiting for.
    pub open spec fn awaits(self, event: EventView) -> bool {
        match self.stage {
            StageView::Receiving => event is Status || event is Closed,
            StageView::Reporting(_) => event is Reported,
            StageView::Finished(_) => false,
        }
    }

    /// The machine after the write of `request` has ended: the aggregation
    /// rule is applied to the status that was written. How the write ended
    /// plays no part.
    pub open spec fn settle(self, request: ReportRequestView) -> RunningView {
        let (aggregate, signal) = self.aggregate.observe(request.status);
        match signal {
            SignalView::Fatal { message } => RunningView {
                aggregate,
                stage: StageView::Finished(TransitionView::Error { message }),
            },
            SignalView::AllComplete => RunningView {
                aggregate,
                stage: StageView::Finished(TransitionView::Completed),
            },
            SignalView::Continue => RunningView { aggregate, stage: StageView::Receiving },
        }
    }

    /// The machine after `event`.
    ///
    /// An event of the channel is first written to the store. A closed channel
    /// completes the pod. When the write has ended the status is aggregated,
    /// and the machine finishes or waits for the next event. An event that the
    /// machine is not waiting for changes nothing.
    pub open spec fn step(self, event: EventView) -> RunningView {
        match (self.stage, event) {
            (StageView::Receiving, EventView::Status(received)) => RunningView {
                aggregate: self.aggregate,
                stage: StageView::Reporting(ReportRequestView::of(received)),
            },
            (StageView::Receiving, EventView::Closed) => RunningView {
                aggregate: self.aggregate,
                stage: StageView::Finished(TransitionView::Completed),
            },
            (StageView::Reporting(request), EventView::Reported(_)) => self.settle(request),
            _ => self,
        }
    }
}

/// The running state of one pod, for one pass through it.
#[derive(Debug)]
pub struct Running {
    aggregate: AggregationState,
    stage: Stage,
}

impl View for Running {
    type V = RunningView;

    closed spec fn view(&self) -> RunningView {
        RunningView {
            aggregate: self.aggregate@,
            stage: match self.stage {
                Stage::Receiving => StageView::Receiving,
                Stage::Reporting(request) => StageView::Reporting(request@),
                Stage::Finished(transition) => StageView::Finished(transition@),
            },
        }
    }
}

impl Running {
    /// Enters the running state with a pod of `total_containers` containers.
    /// The first thing due is to receive.
    pub fn new(total_containers: usize) -> (running: Running)
        ensures
            running@ == RunningView::start(total_containers as nat),
    {
        Running { aggregate: AggregationState::new(total_containers), stage: Stage::Receiving }
    }

    /// How many containers have been counted as successfully stopped.
    pub fn completed(&self) -> (count: usize)
        ensures
            count == self@.aggregate.completed,
            count <= self@.aggregate.total,
    {
        self.aggregate.completed()
    }

    /// How many containers the pod has.
    pub fn total_containers(&self) -> (count: usize)
        ensures
            count == self@.aggregate.total,
    {
        self.aggregate.total()
    }

    /// The action that the machine is waiting to hear about.
    pub fn due(&self) -> (action: Action)
        ensures
            action@ == self@.due(),
    {
        match &self.stage {
            Stage::Receiving => Action::Receive,
            Stage::Reporting(request) => Action::Report(request.clone()),
            Stage::Finished(transition) => Action::Finish(transition.clone()),
        }
    }

    /// The status patch that announces the running state: phase `Running`,
    /// with the reason "Running". It does not depend on what the containers
    /// have reported, and can be asked for at any time.
    pub fn json_status(&self) -> (patch: Result<serde_json::Value, StatusError>)
        ensures
            patch is Ok,
            patch->Ok_0 == status_patch(Phase::Running, "Running"@),
    {
        match make_status(Phase::Running, "Running") {
            Ok(value) => Ok(value),
            Err(_) => Err(StatusError),
        }
    }

    /// Takes one event and says what is to be done next.
    pub fn next(&mut self, event: Event) -> (action: Action)
        ensures
            final(self)@ == old(self)@.step(event@),
            action@ == final(self)@.due(),
            final(self)@.wf(),
    {
        match event {
            Event::Status(received) => {
                if let Stage::Receiving = &self.stage {
                    self.stage = Stage::Reporting(ReportRequest::for_event(received));
                }
            },
            Event::Closed => {
                if let Stage::Receiving = &self.stage {
                    self.stage = Stage::Finished(Transition::Completed);
                }
            },
            Event::Reported(_) => {
                if let Stage::Reporting(request) = &self.stage {
                    let signal = self.aggregate.observe(&request.status);
                    match signal {
                        Signal::Fatal { message } => {
                            self.stage = Stage::Finished(Transition::Error { message });
                        },
                        Signal::AllComplete => {
                            self.stage = Stage::Finished(Transition::Completed);
                        },
                        Signal::Continue => {
                            self.stage = Stage::Receiving;
                        },
                    }
                }
            },
        }
        proof {
            use_type_invariant(&self.aggregate);
        }
        self.due()
    }
}

} // verus!
