//! What holds of every pass through the running state, whatever the stream of
//! status events and whatever the status store answers.

use vstd::prelude::*;
use crate::aggregator::{AggregateView, SignalView};
use crate::reporter::ReportErrorView;
use crate::run::{
    decide, lemma_consumed_within_stream, requests_of, statuses_of, supervise, ObservationView,
    Verdict,
};
use crate::status::StatusView;
use crate::supervisor::{EventView, RunningView, StageView};
use crate::transition::TransitionView;

verus! {

/// The machine after it has been fed a whole recorded stream, turn by turn:
/// each event, then the store's answer to its write, and at last the closing
/// of the channel.
pub open spec fn feed(machine: RunningView, observations: Seq<ObservationView>) -> RunningView
    decreases observations.len(),
{
    if observations.len() == 0 {
        machine.step(EventView::Closed)
    } else {
        feed(
            machine.step(EventView::Status(observations[0].event)).step(
                EventView::Reported(observations[0].report),
            ),
            observations.drop_first(),
        )
    }
}

/// How many statuses of a stream are successful terminations.
pub open spec fn successes(statuses: Seq<StatusView>) -> nat
    decreases statuses.len(),
{
    if statuses.len() == 0 {
        0
    } else if statuses[0].is_success() {
        1 + successes(statuses.drop_first())
    } else {
        successes(statuses.drop_first())
    }
}

/// No status of the stream is a failed termination.
pub open spec fn no_failure(statuses: Seq<StatusView>) -> bool {
    forall|i: int| 0 <= i < statuses.len() ==> !(#[trigger] statuses[i]).is_failure()
}

proof fn lemma_successes_of_all_successful(statuses: Seq<StatusView>)
    requires
        forall|i: int| 0 <= i < statuses.len() ==> (#[trigger] statuses[i]).is_success(),
    ensures
        successes(statuses) == statuses.len(),
    decreases statuses.len(),
{
    if statuses.len() > 0 {
        let rest = statuses.drop_first();
        assert forall|i: int| 0 <= i < rest.len() implies (#[trigger] rest[i]).is_success() by {
            assert(rest[i] == statuses[i + 1]);
        }
        lemma_successes_of_all_successful(rest);
    }
}

/// Without a failed termination the verdict is `Completed`. The pass takes the
/// whole stream when fewer containers stop than are outstanding (or none is),
/// and when the stream's last status is the one that completes the pod.
proof fn lemma_no_failure_completes(aggregate: AggregateView, statuses: Seq<StatusView>)
    requires
        aggregate.wf(),
        no_failure(statuses),
    ensures
        decide(aggregate, statuses).transition == TransitionView::Completed,
        aggregate.outstanding() == 0 || successes(statuses) < aggregate.outstanding() ==> decide(
            aggregate,
            statuses,
        ).consumed == statuses.len(),
        aggregate.outstanding() > 0 && successes(statuses) == aggregate.outstanding()
            && statuses.last().is_success() ==> decide(aggregate, statuses).consumed
            == statuses.len(),
    decreases statuses.len(),
{
    if statuses.len() > 0 {
        let rest = statuses.drop_first();
        let (counted, signal) = aggregate.observe(statuses[0]);
        assert(!statuses[0].is_failure());
        assert forall|i: int| 0 <= i < rest.len() implies !(#[trigger] rest[i]).is_failure() by {
            assert(rest[i] == statuses[i + 1]);
        }
        lemma_no_failure_completes(counted, rest);
        if rest.len() > 0 {
            assert(rest.last() == statuses.last());
        }
        if signal is AllComplete && rest.len() > 0 && statuses.last().is_success()
            && successes(statuses) == aggregate.outstanding() {
            lemma_last_success_counts(rest);
        }
    }
}

proof fn lemma_last_success_counts(statuses: Seq<StatusView>)
    requires
        statuses.len() > 0,
        statuses.last().is_success(),
    ensures
        successes(statuses) >= 1,
    decreases statuses.len(),
{
    if statuses.len() > 1 {
        let rest = statuses.drop_first();
        assert(rest.last() == statuses.last());
        lemma_last_success_counts(rest);
    } else {
        assert(statuses[0] == statuses.last());
        assert(statuses.drop_first().len() == 0);
    }
}

/// The first failed termination decides the pass, if the pod has not been
/// completed before it.
proof fn lemma_first_failure_decides(aggregate: AggregateView, statuses: Seq<StatusView>, index: int)
    requires
        aggregate.wf(),
        0 <= index < statuses.len(),
        statuses[index].is_failure(),
        no_failure(statuses.take(index)),
        aggregate.outstanding() == 0 || successes(statuses.take(index)) < aggregate.outstanding(),
    ensures
        decide(aggregate, statuses) == (Verdict {
            transition: TransitionView::Error { message: statuses[index].message() },
            consumed: (index + 1) as nat,
        }),
    decreases index,
{
    if index > 0 {
        let rest = statuses.drop_first();
        let before = statuses.take(index);
        let (counted, signal) = aggregate.observe(statuses[0]);
        assert(before[0] == statuses[0]);
        assert(!before[0].is_failure());
        assert(rest.take(index - 1) =~= before.drop_first());
        assert forall|i: int| 0 <= i < rest.take(index - 1).len() implies !(
        #[trigger] rest.take(index - 1)[i]).is_failure() by {
            assert(rest.take(index - 1)[i] == before[i + 1]);
        }
        assert(rest[index - 1] == statuses[index]);
        lemma_first_failure_decides(counted, rest, index - 1);
    }
}

/// A status that is not terminal, put into the stream at any place, does not
/// change the transition.
proof fn lemma_neutral_status_inserted(
    aggregate: AggregateView,
    statuses: Seq<StatusView>,
    at: int,
    neutral: StatusView,
)
    requires
        0 <= at <= statuses.len(),
        !neutral.is_terminal(),
    ensures
        decide(aggregate, statuses.insert(at, neutral)).transition == decide(
            aggregate,
            statuses,
        ).transition,
    decreases at,
{
    let longer = statuses.insert(at, neutral);
    if at == 0 {
        assert(longer[0] == neutral);
        assert(longer.drop_first() =~= statuses);
    } else {
        assert(longer[0] == statuses[0]);
        assert(longer.drop_first() =~= statuses.drop_first().insert(at - 1, neutral));
        lemma_neutral_status_inserted(
            aggregate.observe(statuses[0]).0,
            statuses.drop_first(),
            at - 1,
            neutral,
        );
    }
}

/// A finished machine stays as it is, whatever it is fed.
proof fn lemma_finished_machine_ignores_stream(
    machine: RunningView,
    observations: Seq<ObservationView>,
)
    requires
        machine.finished(),
    ensures
        feed(machine, observations) == machine,
    decreases observations.len(),
{
    if observations.len() > 0 {
        lemma_finished_machine_ignores_stream(machine, observations.drop_first());
    }
}

/// A machine that is waiting for the channel, fed a stream, ends in the
/// verdict on the stream's statuses.
proof fn lemma_fed_machine_reaches_verdict(machine: RunningView, observations: Seq<ObservationView>)
    requires
        machine.stage is Receiving,
    ensures
        feed(machine, observations).stage == StageView::Finished(
            decide(machine.aggregate, statuses_of(observations)).transition,
        ),
    decreases observations.len(),
{
    if observations.len() > 0 {
        let rest = observations.drop_first();
        let settled = machine.step(EventView::Status(observations[0].event)).step(
            EventView::Reported(observations[0].report),
        );
        assert(statuses_of(observations)[0] == observations[0].event.status);
        assert(statuses_of(observations).drop_first() =~= statuses_of(rest));
        if settled.finished() {
            lemma_finished_machine_ignores_stream(settled, rest);
        } else {
            lemma_fed_machine_reaches_verdict(settled, rest);
        }
    }
}

/// When every event of the stream is a successful termination and there are
/// as many events as the pod has containers, the pass ends in `Completed`, and
/// it has taken every event. The order of the events is free.
pub proof fn law_all_succeed_completes(total: nat, observations: Seq<ObservationView>)
    requires
        observations.len() == total,
        forall|i: int|
            0 <= i < observations.len() ==> (#[trigger] observations[i]).event.status.is_success(),
    ensures
        supervise(total, observations).transition == TransitionView::Completed,
        supervise(total, observations).consumed == total,
{
    let statuses = statuses_of(observations);
    assert forall|i: int| 0 <= i < statuses.len() implies (#[trigger] statuses[i]).is_success() by {
        assert(statuses[i] == observations[i].event.status);
    }
    lemma_successes_of_all_successful(statuses);
    lemma_no_failure_completes(AggregateView::start(total), statuses);
}

/// The first failed termination of the stream ends the pass in `Error`, with
/// that event's message, as long as the pod has not been completed before it:
/// fewer containers have stopped successfully than the pod has, or the pod has
/// none. The pass takes that event and none after it.
pub proof fn law_first_failure_wins(total: nat, observations: Seq<ObservationView>, index: int)
    requires
        0 <= index < observations.len(),
        observations[index].event.status.is_failure(),
        no_failure(statuses_of(observations).take(index)),
        total == 0 || successes(statuses_of(observations).take(index)) < total,
    ensures
        supervise(total, observations).transition == (TransitionView::Error {
            message: observations[index].event.status.message(),
        }),
        supervise(total, observations).consumed == index + 1,
{
    lemma_first_failure_decides(AggregateView::start(total), statuses_of(observations), index);
}

/// Nothing that follows the first failed termination alters the outcome: two
/// streams that agree up to and including it come to the same, in transition,
/// in events taken and in writes made.
pub proof fn law_nothing_after_failure_matters(
    total: nat,
    observations: Seq<ObservationView>,
    other: Seq<ObservationView>,
    index: int,
)
    requires
        0 <= index < observations.len(),
        observations[index].event.status.is_failure(),
        no_failure(statuses_of(observations).take(index)),
        total == 0 || successes(statuses_of(observations).take(index)) < total,
        index < other.len(),
        forall|i: int| 0 <= i <= index ==> other[i] == observations[i],
    ensures
        supervise(total, other) == supervise(total, observations),
{
    assert(statuses_of(other).take(index) =~= statuses_of(observations).take(index));
    law_first_failure_wins(total, observations, index);
    law_first_failure_wins(total, other, index);
    assert(requests_of(other, (index + 1) as nat) =~= requests_of(
        observations,
        (index + 1) as nat,
    ));
}

/// A stream that ends without a failed termination, after fewer successful
/// terminations than the pod has containers, ends the pass in `Completed`:
/// the end of the stream is no failure. The pass has taken every event.
pub proof fn law_early_close_completes(total: nat, observations: Seq<ObservationView>)
    requires
        no_failure(statuses_of(observations)),
        successes(statuses_of(observations)) < total,
    ensures
        supervise(total, observations).transition == TransitionView::Completed,
        supervise(total, observations).consumed == observations.len(),
{
    lemma_no_failure_completes(AggregateView::start(total), statuses_of(observations));
}

/// Without a failed termination in the stream the pass ends in `Completed`,
/// however many containers stop.
pub proof fn law_no_failure_completes(total: nat, observations: Seq<ObservationView>)
    requires
        no_failure(statuses_of(observations)),
    ensures
        supervise(total, observations).transition == TransitionView::Completed,
{
    lemma_no_failure_completes(AggregateView::start(total), statuses_of(observations));
}

/// What the status store answers does not change what a pass comes to: two
/// recordings of the same events come to the same transition, the same number
/// of events taken and the same writes, whichever writes failed.
pub proof fn law_store_answers_do_not_matter(
    total: nat,
    observations: Seq<ObservationView>,
    other: Seq<ObservationView>,
)
    requires
        observations.len() == other.len(),
        forall|i: int| 0 <= i < observations.len() ==> observations[i].event == other[i].event,
    ensures
        supervise(total, observations) == supervise(total, other),
{
    assert(statuses_of(observations) =~= statuses_of(other));
    let consumed = decide(AggregateView::start(total), statuses_of(observations)).consumed;
    lemma_consumed_within_stream(AggregateView::start(total), statuses_of(observations));
    assert(requests_of(observations, consumed) =~= requests_of(other, consumed));
}

/// A failed write changes nothing in the machine: after the store's answer
/// the machine is in the same state, with the same action due, whether the
/// write went through or not. In particular a failed write never ends the
/// pass by itself.
pub proof fn law_write_failure_changes_nothing(machine: RunningView, error: ReportErrorView)
    ensures
        machine.step(EventView::Reported(Err(error))) == machine.step(EventView::Reported(Ok(()))),
        machine.stage matches StageView::Reporting(request) && !request.status.is_terminal()
            ==> machine.step(EventView::Reported(Err(error))).stage is Receiving,
{
}

/// A status that is not terminal changes neither the count nor the verdict of
/// the aggregator.
pub proof fn law_waiting_and_running_are_neutral(aggregate: AggregateView, status: StatusView)
    requires
        !status.is_terminal(),
    ensures
        aggregate.observe(status) == (aggregate, SignalView::Continue),
{
}

/// An event whose status is not terminal, put into the stream at any place,
/// does not change the transition that the pass ends in.
pub proof fn law_neutral_event_changes_no_transition(
    total: nat,
    observations: Seq<ObservationView>,
    at: int,
    neutral: ObservationView,
)
    requires
        0 <= at <= observations.len(),
        !neutral.event.status.is_terminal(),
    ensures
        supervise(total, observations.insert(at, neutral)).transition == supervise(
            total,
            observations,
        ).transition,
{
    assert(statuses_of(observations.insert(at, neutral)) =~= statuses_of(observations).insert(
        at,
        neutral.event.status,
    ));
    lemma_neutral_status_inserted(
        AggregateView::start(total),
        statuses_of(observations),
        at,
        neutral.event.status,
    );
}

/// The machine, fed a recorded stream turn by turn from entry, finishes with
/// the transition that the whole pass over that stream comes to.
pub proof fn law_machine_agrees_with_whole_pass(total: nat, observations: Seq<ObservationView>)
    ensures
        feed(RunningView::start(total), observations).stage == StageView::Finished(
            supervise(total, observations).transition,
        ),
{
    lemma_fed_machine_reaches_verdict(RunningView::start(total), observations);
}

/// At entry nothing is counted, whatever the number of containers.
pub proof fn law_count_starts_at_zero(total: nat)
    ensures
        RunningView::start(total).wf(),
        RunningView::start(total).aggregate.completed == 0,
        RunningView::start(total).aggregate.total == total,
        RunningView::start(total).due() is Receive,
{
}

/// The count is never above the number of containers: every event keeps it
/// so. The number of containers never changes, and the count never goes down.
pub proof fn law_count_stays_within_total(machine: RunningView, event: EventView)
    requires
        machine.wf(),
    ensures
        machine.step(event).wf(),
        machine.step(event).aggregate.total == machine.aggregate.total,
        machine.step(event).aggregate.completed >= machine.aggregate.completed,
{
}

/// An event that the machine is not waiting for changes nothing.
pub proof fn law_event_out_of_turn_changes_nothing(machine: RunningView, event: EventView)
    requires
        !machine.awaits(event),
    ensures
        machine.step(event) == machine,
{
}

/// Once the transition is decided it stays: no event changes a finished
/// machine, and the action due is to finish with that same transition.
pub proof fn law_decision_is_final(machine: RunningView, event: EventView)
    requires
        machine.finished(),
    ensures
        machine.step(event) == machine,
        machine.due() is Finish,
{
}

} // verus!
