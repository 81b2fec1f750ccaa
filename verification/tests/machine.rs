use running_supervisor::reporter::{ReportError, ReportRequest};
use running_supervisor::status::{ContainerKey, Status, StatusEvent, Timestamp};
use running_supervisor::supervisor::{Action, Event, Running};
use running_supervisor::transition::Transition;

fn stopped(name: &str, message: &str, failed: bool) -> StatusEvent {
    StatusEvent {
        name: name.to_string(),
        status: Status::Terminated {
            timestamp: Timestamp { seconds: 1_600_000_000, nanos: 5 },
            message: message.to_string(),
            failed,
        },
    }
}

fn write_for(event: &StatusEvent) -> Action {
    Action::Report(ReportRequest {
        key: ContainerKey::App(event.name.clone()),
        status: event.status.clone(),
    })
}

fn store_down() -> Event {
    Event::Reported(Err(ReportError { reason: "connection refused".to_string() }))
}

#[test]
fn machine_starts_by_receiving() {
    let machine = Running::new(2);
    assert_eq!(machine.due(), Action::Receive);
    assert_eq!(machine.completed(), 0);
    assert_eq!(machine.total_containers(), 2);
}

#[test]
fn every_event_is_written_before_it_is_aggregated() {
    let mut machine = Running::new(2);
    let a = stopped("a", "done", false);
    assert_eq!(machine.next(Event::Status(a.clone())), write_for(&a));
    assert_eq!(machine.completed(), 0);
    assert_eq!(machine.next(Event::Reported(Ok(()))), Action::Receive);
    assert_eq!(machine.completed(), 1);
}

#[test]
fn write_is_addressed_to_the_app_container_of_the_event() {
    let mut machine = Running::new(1);
    let event = StatusEvent {
        name: "worker".to_string(),
        status: Status::Running { timestamp: Timestamp { seconds: 7, nanos: 9 } },
    };
    let action = machine.next(Event::Status(event));
    assert_eq!(
        action,
        Action::Report(ReportRequest {
            key: ContainerKey::App("worker".to_string()),
            status: Status::Running { timestamp: Timestamp { seconds: 7, nanos: 9 } },
        })
    );
}

#[test]
fn two_containers_both_succeed() {
    let mut machine = Running::new(2);
    let a = stopped("A", "ok", false);
    let b = stopped("B", "ok", false);
    assert_eq!(machine.next(Event::Status(a.clone())), write_for(&a));
    assert_eq!(machine.next(Event::Reported(Ok(()))), Action::Receive);
    assert_eq!(machine.next(Event::Status(b.clone())), write_for(&b));
    assert_eq!(
        machine.next(Event::Reported(Ok(()))),
        Action::Finish(Transition::Completed)
    );
    assert_eq!(machine.completed(), 2);
}

#[test]
fn first_container_fails_and_the_second_is_never_asked_for() {
    let mut machine = Running::new(2);
    let a = stopped("A", "oom", true);
    assert_eq!(machine.next(Event::Status(a.clone())), write_for(&a));
    let action = machine.next(Event::Reported(Ok(())));
    assert_eq!(action, Action::Finish(Transition::Error { message: "oom".to_string() }));
    assert_ne!(action, Action::Receive);
    let b = stopped("B", "ok", false);
    assert_eq!(
        machine.next(Event::Status(b)),
        Action::Finish(Transition::Error { message: "oom".to_string() })
    );
    assert_eq!(machine.completed(), 0);
}

#[test]
fn failed_write_still_counts_the_termination() {
    let mut machine = Running::new(2);
    let a = stopped("A", "ok", false);
    assert_eq!(machine.next(Event::Status(a.clone())), write_for(&a));
    assert_eq!(machine.next(store_down()), Action::Receive);
    assert_eq!(machine.completed(), 1);
}

#[test]
fn failed_write_still_completes_the_pod() {
    let mut machine = Running::new(1);
    let a = stopped("A", "ok", false);
    assert_eq!(machine.next(Event::Status(a.clone())), write_for(&a));
    assert_eq!(machine.next(store_down()), Action::Finish(Transition::Completed));
    assert_eq!(machine.completed(), 1);
}

#[test]
fn failed_write_does_not_hide_a_failure() {
    let mut machine = Running::new(1);
    let a = stopped("A", "segfault", true);
    assert_eq!(machine.next(Event::Status(a.clone())), write_for(&a));
    assert_eq!(
        machine.next(store_down()),
        Action::Finish(Transition::Error { message: "segfault".to_string() })
    );
}

#[test]
fn closed_channel_completes_before_all_containers_stopped() {
    let mut machine = Running::new(3);
    let a = stopped("A", "ok", false);
    assert_eq!(machine.next(Event::Status(a.clone())), write_for(&a));
    assert_eq!(machine.next(Event::Reported(Ok(()))), Action::Receive);
    assert_eq!(machine.next(Event::Closed), Action::Finish(Transition::Completed));
    assert_eq!(machine.completed(), 1);
}

#[test]
fn closed_channel_completes_at_once() {
    let mut machine = Running::new(2);
    assert_eq!(machine.next(Event::Closed), Action::Finish(Transition::Completed));
}

#[test]
fn waiting_and_running_events_are_written_and_decide_nothing() {
    let mut machine = Running::new(1);
    let waiting = StatusEvent {
        name: "A".to_string(),
        status: Status::Waiting {
            timestamp: Timestamp { seconds: 1, nanos: 0 },
            message: "starting".to_string(),
        },
    };
    let running = StatusEvent {
        name: "A".to_string(),
        status: Status::Running { timestamp: Timestamp { seconds: 2, nanos: 0 } },
    };
    assert_eq!(machine.next(Event::Status(waiting.clone())), write_for(&waiting));
    assert_eq!(machine.next(Event::Reported(Ok(()))), Action::Receive);
    assert_eq!(machine.next(Event::Status(running.clone())), write_for(&running));
    assert_eq!(machine.next(store_down()), Action::Receive);
    assert_eq!(machine.completed(), 0);
    assert_eq!(machine.due(), Action::Receive);
}

#[test]
fn event_out_of_turn_changes_nothing() {
    let mut machine = Running::new(2);
    assert_eq!(machine.next(Event::Reported(Ok(()))), Action::Receive);
    assert_eq!(machine.completed(), 0);
    let a = stopped("A", "ok", false);
    assert_eq!(machine.next(Event::Status(a.clone())), write_for(&a));
    let b = stopped("B", "bad", true);
    assert_eq!(machine.next(Event::Status(b)), write_for(&a));
    assert_eq!(machine.next(Event::Closed), write_for(&a));
    assert_eq!(machine.due(), write_for(&a));
    assert_eq!(machine.next(Event::Reported(Ok(()))), Action::Receive);
    assert_eq!(machine.completed(), 1);
}

#[test]
fn decided_transition_stays() {
    let mut machine = Running::new(1);
    let a = stopped("A", "ok", false);
    machine.next(Event::Status(a));
    assert_eq!(machine.next(Event::Reported(Ok(()))), Action::Finish(Transition::Completed));
    assert_eq!(machine.next(Event::Closed), Action::Finish(Transition::Completed));
    assert_eq!(machine.next(store_down()), Action::Finish(Transition::Completed));
    assert_eq!(
        machine.next(Event::Status(stopped("B", "late", true))),
        Action::Finish(Transition::Completed)
    );
    assert_eq!(machine.due(), Action::Finish(Transition::Completed));
}

#[test]
fn pod_without_containers_waits_for_the_channel() {
    let mut machine = Running::new(0);
    assert_eq!(machine.due(), Action::Receive);
    let a = stopped("A", "ok", false);
    assert_eq!(machine.next(Event::Status(a.clone())), write_for(&a));
    assert_eq!(machine.next(Event::Reported(Ok(()))), Action::Receive);
    assert_eq!(machine.completed(), 0);
    assert_eq!(machine.next(Event::Closed), Action::Finish(Transition::Completed));
}

#[test]
fn transition_knows_whether_it_is_an_error() {
    assert!(!Transition::Completed.is_error());
    assert!(Transition::Error { message: "x".to_string() }.is_error());
    let error = Transition::Error { message: "x".to_string() };
    assert_eq!(error.clone(), error);
}

#[test]
fn request_for_event_keeps_name_and_status() {
    let event = stopped("db", "killed", true);
    let request = ReportRequest::for_event(event.clone());
    assert_eq!(request.key, ContainerKey::App("db".to_string()));
    assert_eq!(request.status, event.status);
    assert_eq!(request.clone(), request);
}
