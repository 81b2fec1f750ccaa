use running_supervisor::aggregator::{AggregationState, Signal};
use running_supervisor::status::{ContainerKey, Status, Timestamp};

fn at(seconds: i64) -> Timestamp {
    Timestamp { seconds, nanos: 0 }
}

fn stopped(message: &str, failed: bool) -> Status {
    Status::Terminated { timestamp: at(10), message: message.to_string(), failed }
}

#[test]
fn new_state_has_counted_nothing() {
    let state = AggregationState::new(3);
    assert_eq!(state.completed(), 0);
    assert_eq!(state.total(), 3);
}

#[test]
fn success_is_counted_and_does_not_decide_while_others_are_outstanding() {
    let mut state = AggregationState::new(2);
    assert_eq!(state.observe(&stopped("done", false)), Signal::Continue);
    assert_eq!(state.completed(), 1);
    assert_eq!(state.total(), 2);
}

#[test]
fn last_outstanding_success_completes() {
    let mut state = AggregationState::new(2);
    assert_eq!(state.observe(&stopped("a", false)), Signal::Continue);
    assert_eq!(state.observe(&stopped("b", false)), Signal::AllComplete);
    assert_eq!(state.completed(), 2);
}

#[test]
fn single_container_completes_at_once() {
    let mut state = AggregationState::new(1);
    assert_eq!(state.observe(&stopped("only", false)), Signal::AllComplete);
    assert_eq!(state.completed(), 1);
}

#[test]
fn failure_is_fatal_with_its_message_and_is_not_counted() {
    let mut state = AggregationState::new(2);
    assert_eq!(
        state.observe(&stopped("oom", true)),
        Signal::Fatal { message: "oom".to_string() }
    );
    assert_eq!(state.completed(), 0);
}

#[test]
fn failure_after_successes_is_still_fatal() {
    let mut state = AggregationState::new(3);
    assert_eq!(state.observe(&stopped("a", false)), Signal::Continue);
    assert_eq!(
        state.observe(&stopped("exit 1", true)),
        Signal::Fatal { message: "exit 1".to_string() }
    );
    assert_eq!(state.completed(), 1);
}

#[test]
fn waiting_and_running_change_nothing() {
    let mut state = AggregationState::new(1);
    let waiting = Status::Waiting { timestamp: at(1), message: "pulling".to_string() };
    let running = Status::Running { timestamp: at(2) };
    assert_eq!(state.observe(&waiting), Signal::Continue);
    assert_eq!(state.observe(&running), Signal::Continue);
    assert_eq!(state.completed(), 0);
    assert_eq!(state.total(), 1);
}

#[test]
fn count_never_passes_the_total() {
    let mut state = AggregationState::new(1);
    assert_eq!(state.observe(&stopped("a", false)), Signal::AllComplete);
    assert_eq!(state.observe(&stopped("b", false)), Signal::Continue);
    assert_eq!(state.observe(&stopped("c", false)), Signal::Continue);
    assert_eq!(state.completed(), 1);
    assert!(state.completed() <= state.total());
}

#[test]
fn pod_without_containers_is_never_completed_by_a_status() {
    let mut state = AggregationState::new(0);
    assert_eq!(state.observe(&stopped("a", false)), Signal::Continue);
    assert_eq!(state.completed(), 0);
    assert_eq!(
        state.observe(&stopped("bad", true)),
        Signal::Fatal { message: "bad".to_string() }
    );
}

#[test]
fn container_key_tells_app_from_init() {
    let app = ContainerKey::App("web".to_string());
    let init = ContainerKey::Init("setup".to_string());
    assert!(app.is_app());
    assert!(!app.is_init());
    assert!(init.is_init());
    assert!(!init.is_app());
    assert_eq!(app.name(), "web");
    assert_eq!(init.name(), "setup");
}

#[test]
fn status_knows_whether_it_is_terminal() {
    assert!(stopped("x", false).is_terminal());
    assert!(stopped("x", true).is_terminal());
    assert!(!Status::Running { timestamp: at(0) }.is_terminal());
    assert!(!Status::Waiting { timestamp: at(0), message: String::new() }.is_terminal());
}

#[test]
fn clones_are_equal_to_their_originals() {
    let status = stopped("bye", true);
    assert_eq!(status.clone(), status);
    let key = ContainerKey::Init("i".to_string());
    assert_eq!(key.clone(), key);
}
