//! One whole pass through the running state, over a recorded stream of status
//! events: which transition it ends in, how many events it takes from the
//! stream, and what it writes to the status store.

use vstd::prelude::*;
use crate::aggregator::{AggregateView, SignalView};
use crate::reporter::{copy_outcome, outcome_view, ReportError, ReportErrorView, ReportRequest, ReportRequestView};
use crate::status::{StatusEvent, StatusEventView, StatusView};
use crate::supervisor::{Action, Event, Running};
use crate::transition::{Transition, TransitionView};

verus! {

/// One recorded event of the status channel, with the answer that the status
/// store gave when the event's status was written to it.
#[derive(Debug, PartialEq, Eq)]
pub struct Observation {
    pub event: StatusEvent,
    pub report: Result<(), ReportError>,
}

/// Mathematical value of an [`Observation`].
pub struct ObservationView {
    pub event: StatusEventView,
    pub report: Result<(), ReportErrorView>,
}

impl View for Observation {
    type V = ObservationView;

    open spec fn view(&self) -> ObservationView {
        ObservationView { event: self.event@, report: outcome_view(self.report) }
    }
}

/// The values of a recorded stream, in order.
pub open spec fn observation_views(observations: Seq<Observation>) -> Seq<ObservationView> {
    Seq::new(observations.len(), |i: int| observations[i]@)
}

/// The statuses of a recorded stream, in order.
pub open spec fn statuses_of(observations: Seq<ObservationView>) -> Seq<StatusView> {
    Seq::new(observations.len(), |i: int| observations[i].event.status)
}

/// The writes that the first `count` events of a recorded stream call for, in
/// order.
pub open spec fn requests_of(observations: Seq<ObservationView>, count: nat) -> Seq<
    ReportRequestView,
> {
    Seq::new(count, |i: int| ReportRequestView::of(observations[i].event))
}

/// How a pass ends: the transition, and the number of statuses it took from
/// the stream before it ended.
pub struct Verdict {
    pub transition: TransitionView,
    pub consumed: nat,
}

impl Verdict {
    /// The same verdict, reached after `count` more statuses.
    pub open spec fn later(self, count: nat) -> Verdict {
        Verdict { transition: self.transition, consumed: self.consumed + count }
    }
}

/// The verdict on a stream of statuses, from a given state of the count.
///
/// The statuses are aggregated one by one. The first that is fatal ends the
/// pass in error, with its message; the one that completes the pod ends it
/// well. Nothing after that status is taken. A stream that ends before either
/// has happened ends the pass well, too.
pub open spec fn decide(aggregate: AggregateView, statuses: Seq<StatusView>) -> Verdict
    decreases statuses.len(),
{
    if statuses.len() == 0 {
        Verdict { transition: TransitionView::Completed, consumed: 0 }
    } else {
        let (counted, signal) = aggregate.observe(statuses[0]);
        match signal {
            SignalView::Fatal { message } => Verdict {
                transition: TransitionView::Error { message },
                consumed: 1,
            },
            SignalView::AllComplete => Verdict {
                transition: TransitionView::Completed,
                consumed: 1,
            },
            SignalView::Continue => decide(counted, statuses.drop_first()).later(1),
        }
    }
}

/// What a pass over a recorded stream comes to.
#[derive(Debug, PartialEq, Eq)]
pub struct RunSummary {
    /// The transition that the pass ends in.
    pub transition: Transition,
    /// How many events were taken from the stream.
    pub consumed: usize,
    /// The writes made to the status store, in order.
    pub reports: Vec<ReportRequest>,
}

/// Mathematical value of a [`RunSummary`].
pub struct RunSummaryView {
    pub transition: TransitionView,
    pub consumed: nat,
    pub reports: Seq<ReportRequestView>,
}

impl View for RunSummary {
    type V = RunSummaryView;

    open spec fn view(&self) -> RunSummaryView {
        RunSummaryView {
            transition: self.transition@,
            consumed: self.consumed as nat,
            reports: Seq::new(self.reports@.len(), |i: int| self.reports@[i]@),
        }
    }
}

/// What a pass over a recorded stream comes to, for a pod of `total`
/// containers: the verdict on the stream's statuses, and one write for each
/// event taken, in the order of the stream. The store's answers play no part.
pub open spec fn supervise(total: nat, observations: Seq<ObservationView>) -> RunSummaryView {
    let verdict = decide(AggregateView::start(total), statuses_of(observations));
    RunSummaryView {
        transition: verdict.transition,
        consumed: verdict.consumed,
        reports: requests_of(observations, verdict.consumed),
    }
}

/// A pass takes no more statuses than the stream holds.
pub proof fn lemma_consumed_within_stream(aggregate: AggregateView, statuses: Seq<StatusView>)
    ensures
        decide(aggregate, statuses).consumed <= statuses.len(),
    decreases statuses.len(),
{
    if statuses.len() > 0 {
        lemma_consumed_within_stream(aggregate.observe(statuses[0]).0, statuses.drop_first());
    }
}

impl Running {
    /// Runs one whole pass over a recorded stream, for a pod of
    /// `total_containers` containers.
    ///
    /// Each event is taken from the stream, written to the store, and then
    /// aggregated. The pass ends at the first status that decides it, or at the
    /// end of the stream.
    pub fn run(total_containers: usize, observations: &Vec<Observation>) -> (summary: RunSummary)
        ensures
            summary@ == supervise(total_containers as nat, observation_views(observations@)),
    {
        let ghost recorded = observation_views(observations@);
        let ghost statuses = statuses_of(recorded);
        let ghost start = AggregateView::start(total_containers as nat);
        let mut machine = Running::new(total_containers);
        let mut reports: Vec<ReportRequest> = Vec::new();
        let mut taken: usize = 0;
        proof {
            assert(statuses.skip(0) =~= statuses);
        }
        while taken < observations.len()
            invariant
                taken <= observations.len(),
                recorded == observation_views(observations@),
                statuses == statuses_of(recorded),
                start == AggregateView::start(total_containers as nat),
                machine@.stage is Receiving,
                decide(start, statuses) == decide(machine@.aggregate, statuses.skip(taken as int)).later(
                    taken as nat,
                ),
                reports@.len() == taken,
                forall|i: int|
                    0 <= i < taken ==> (#[trigger] reports@[i])@ == ReportRequestView::of(
                        recorded[i].event,
                    ),
            decreases observations.len() - taken,
        {
            let observation = &observations[taken];
            let ghost rest = statuses.skip(taken as int);
            proof {
                assert(rest.len() > 0);
                assert(rest[0] == recorded[taken as int].event.status);
                assert(rest.drop_first() =~= statuses.skip(taken + 1));
            }
            let write = machine.next(Event::Status(observation.event.clone()));
            match write {
                Action::Report(request) => {
                    reports.push(request);
                },
                _ => {},
            }
            let settled = machine.next(Event::Reported(copy_outcome(&observation.report)));
            taken = taken + 1;
            match settled {
                Action::Finish(transition) => {
                    let summary = RunSummary { transition, consumed: taken, reports };
                    proof {
                        assert(summary@.reports =~= requests_of(recorded, taken as nat));
                    }
                    return summary;
                },
                _ => {},
            }
        }
        let closed = machine.next(Event::Closed);
        match closed {
            Action::Finish(transition) => {
                let summary = RunSummary { transition, consumed: taken, reports };
                proof {
                    assert(statuses.skip(taken as int).len() == 0);
                    assert(summary@.reports =~= requests_of(recorded, taken as nat));
                }
                summary
            },
            _ => vstd::pervasive::unreached(),
        }
    }
}

} // verus!
