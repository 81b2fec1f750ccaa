use running_supervisor::phase::{Phase, StatusError};
use running_supervisor::supervisor::Running;

#[test]
fn json_status_announces_the_running_phase() {
    let machine = Running::new(2);
    let patch = machine.json_status().expect("the patch is always made");
    assert_eq!(patch["status"]["phase"], "Running");
    assert_eq!(patch["status"]["reason"], "Running");
    assert_eq!(patch["metadata"]["resourceVersion"], "");
}

#[test]
fn json_status_is_the_exact_document() {
    let machine = Running::new(1);
    let patch = machine.json_status().expect("the patch is always made");
    let expected: serde_json::Value = serde_json::from_str(
        "{\"metadata\":{\"resourceVersion\":\"\"},\"status\":{\"phase\":\"Running\",\"reason\":\"Running\"}}",
    )
    .expect("a JSON document");
    assert_eq!(patch, expected);
}

#[test]
fn json_status_does_not_depend_on_the_containers() {
    let fresh = Running::new(0);
    let mut busy = Running::new(3);
    busy.next(running_supervisor::supervisor::Event::Closed);
    assert_eq!(fresh.json_status(), busy.json_status());
    assert_eq!(fresh.json_status(), fresh.json_status());
}

#[test]
fn phases_and_status_error_compare() {
    assert_eq!(Phase::Running, Phase::Running);
    assert_ne!(Phase::Running, Phase::Succeeded);
    assert_eq!(StatusError, StatusError);
}
