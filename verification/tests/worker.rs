use durabletask::client::{
    get_orchestration_state_request, purge_orchestration_request, raise_orchestration_event_request,
    resume_orchestration_request, schedule_new_orchestration_request, suspend_orchestration_request,
    terminate_orchestration_request,
};
use durabletask::registry::Registry;
use durabletask::worker::{
    ActivityCall, ActivityError, ActivityRequest, ActivityResponse, OrchestrationInstance, Worker,
};

#[test]
fn registry_finds_the_latest_registration() {
    let mut registry = Registry::new();
    assert_eq!(registry.get_orchestrator("flow"), None);
    registry.add_orchestrator("flow".to_string(), 0);
    registry.add_activity("step".to_string(), 4);
    assert_eq!(registry.get_orchestrator("flow"), Some(0));
    assert_eq!(registry.get_activity("step"), Some(4));
    assert_eq!(registry.get_activity("flow"), None);
    registry.add_orchestrator("flow".to_string(), 2);
    assert_eq!(registry.get_orchestrator("flow"), Some(2));
}

#[test]
fn worker_registers_by_name() {
    let mut worker = Worker::new("http://localhost:3501");
    worker.add_orchestrator("sequence".to_string(), 0);
    worker.add_activity("test_activity".to_string(), 1);
    assert_eq!(worker.host(), "http://localhost:3501");
    assert_eq!(worker.registry().get_orchestrator("sequence"), Some(0));
    assert_eq!(worker.registry().get_activity("test_activity"), Some(1));
}

#[test]
fn activity_request_without_instance_is_not_run() {
    let request = ActivityRequest {
        name: "a".to_string(),
        version: None,
        input: None,
        orchestration_instance: None,
        task_id: 3,
    };
    assert!(Worker::activity_call(request).is_none());
    let empty = ActivityResponse::empty();
    assert_eq!(empty.instance_id, "");
    assert_eq!(empty.task_id, 0);
    assert!(empty.result.is_none());
}

#[test]
fn activity_response_answers_the_call() {
    let request = ActivityRequest {
        name: "a".to_string(),
        version: None,
        input: Some("\"x\"".to_string()),
        orchestration_instance: Some(OrchestrationInstance { instance_id: "o1".to_string(), execution_id: None }),
        task_id: 3,
    };
    let call: ActivityCall = Worker::activity_call(request).unwrap();
    assert_eq!(call.instance_id, "o1");
    assert_eq!(call.name, "a");
    assert_eq!(call.input.as_deref(), Some("\"x\""));
    let response = Worker::activity_response(call, Some("\"done\"".to_string()));
    assert_eq!(response.instance_id, "o1");
    assert_eq!(response.task_id, 3);
    assert_eq!(response.result.as_deref(), Some("\"done\""));
    assert!(response.failure_details.is_none());
}

#[test]
fn activity_output_is_text() {
    assert!(matches!(Worker::activity_output(None), Ok(None)));
    assert!(matches!(Worker::activity_output(Some(Ok(b"\"hi\"".to_vec()))), Ok(Some(s)) if s == "\"hi\""));
    assert!(matches!(Worker::activity_output(Some(Ok(vec![0xff, 0xfe]))), Err(ActivityError::InvalidUtf8)));
    assert!(matches!(Worker::activity_output(Some(Err("failed".to_string()))), Err(ActivityError::Failed(e)) if e == "failed"));
}

#[test]
fn orchestrator_response_carries_the_actions() {
    let response = Worker::orchestrator_response("o1".to_string(), Vec::new());
    assert_eq!(response.instance_id, "o1");
    assert!(response.actions.is_empty());
    assert!(response.custom_status.is_none());
}

#[test]
fn client_requests() {
    let r = schedule_new_orchestration_request("flow".to_string(), Some("\"in\"".to_string()), "id1".to_string());
    assert_eq!((r.instance_id.as_str(), r.name.as_str(), r.input.as_deref()), ("id1", "flow", Some("\"in\"")));
    assert!(r.version.is_none() && r.execution_id.is_none() && r.tags.is_empty());
    let r = get_orchestration_state_request("id1".to_string(), true);
    assert!(r.get_inputs_and_outputs);
    let r = terminate_orchestration_request("id1".to_string(), true);
    assert!(r.recursive && r.output.is_none());
    let r = raise_orchestration_event_request("sig".to_string(), None, "id1".to_string());
    assert_eq!((r.instance_id.as_str(), r.name.as_str()), ("id1", "sig"));
    assert!(suspend_orchestration_request("id1".to_string()).reason.is_none());
    assert!(resume_orchestration_request("id1".to_string()).reason.is_none());
    let r = purge_orchestration_request("id1".to_string());
    assert!(!r.recursive && r.instance_id == "id1");
}
