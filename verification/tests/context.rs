use std::sync::Arc;

use durabletask::history::{OrchestratorActionType, Timestamp};
use durabletask::queues::NamedQueues;
use durabletask::task::{CompletableTask, Delivery, TaskPoll};
use durabletask::types::{
    activity_input, timestamp_after, ActivityContext, ActivityOptions, OrchestratorContext,
    OrchestratorResultValue, SubOrchestratorOptions,
};

#[test]
fn sequence_numbers_follow_one_another() {
    let mut octx = OrchestratorContext::new("i".to_string(), Some("in".to_string()));
    assert_eq!(octx.schedule_activity("a", None), 1);
    assert_eq!(octx.schedule_sub_orchestrator("s", "child", None), 2);
    assert_eq!(octx.create_timer(5, Timestamp { seconds: 1, nanos: 0 }), 3);
    let (actions, tasks, _) = octx.take_sent();
    let ids: Vec<i32> = actions.iter().map(|a| a.id).collect();
    assert_eq!(ids, vec![1, 2, 3]);
    assert_eq!(tasks, vec![1, 2, 3]);
    assert_eq!(octx.instance_id(), "i");
    assert_eq!(octx.input().as_deref(), Some("in"));
}

#[test]
fn timer_fires_after_the_delay() {
    let mut octx = OrchestratorContext::new("i".to_string(), None);
    let _ = octx.create_timer(1500, Timestamp { seconds: 10, nanos: 999_000_000 });
    let (actions, _, _) = octx.take_sent();
    match &actions[0].action_type {
        OrchestratorActionType::CreateTimer { fire_at } => {
            assert_eq!(*fire_at, Timestamp { seconds: 12, nanos: 499_000_000 })
        }
        _ => panic!("expected a timer"),
    }
}

#[test]
fn timestamp_after_carries_seconds() {
    assert_eq!(timestamp_after(Timestamp { seconds: -1, nanos: 500_000_000 }, 700), Timestamp {
        seconds: 0,
        nanos: 200_000_000
    });
    assert_eq!(timestamp_after(Timestamp { seconds: 3, nanos: 0 }, 0), Timestamp { seconds: 3, nanos: 0 });
}

#[test]
fn call_activity_falls_back_to_the_default_type() {
    let mut octx = OrchestratorContext::new("i".to_string(), None);
    octx.call_activity(ActivityOptions { activity_type: String::new() }, "1".to_string(), "my::activity".to_string());
    octx.call_activity(ActivityOptions { activity_type: "named".to_string() }, "2".to_string(), "unused".to_string());
    let (actions, _, _) = octx.take_sent();
    let names: Vec<(String, Option<String>)> = actions
        .iter()
        .map(|a| match &a.action_type {
            OrchestratorActionType::ScheduleTask { name, input } => (name.clone(), input.clone()),
            _ => panic!("expected a scheduled task"),
        })
        .collect();
    assert_eq!(names, vec![
        ("my::activity".to_string(), Some("1".to_string())),
        ("named".to_string(), Some("2".to_string()))
    ]);
}

#[test]
fn call_sub_orchestrator_keeps_the_instance_id() {
    let mut octx = OrchestratorContext::new("i".to_string(), None);
    octx.call_sub_orchestrator(
        SubOrchestratorOptions { orchestrator_type: String::new(), instance_id: "sub-i".to_string() },
        "\"test\"".to_string(),
        "sub_flow".to_string(),
    );
    let (actions, _, _) = octx.take_sent();
    match &actions[0].action_type {
        OrchestratorActionType::CreateSubOrchestration { instance_id, name, input } => {
            assert_eq!(instance_id, "sub-i");
            assert_eq!(name, "sub_flow");
            assert_eq!(input.as_deref(), Some("\"test\""));
        }
        _ => panic!("expected a sub-orchestration"),
    }
}

#[test]
fn activity_input_defaults_to_test() {
    assert_eq!(activity_input(None), "test");
    assert_eq!(activity_input(Some("x".to_string())), "x");
}

#[test]
fn output_converts_into_a_result_value() {
    let v: OrchestratorResultValue<u32> = 7.into();
    assert!(matches!(v, OrchestratorResultValue::Output(7)));
}

#[test]
fn activity_context_shares_the_environment() {
    let env = Arc::new(String::from("workspace"));
    let ctx = ActivityContext::new("o".to_string(), 3, env);
    assert_eq!(ctx.environment(), "workspace");
}

#[test]
fn completed_task_gives_its_result_once() {
    let mut task = CompletableTask::new();
    assert!(!task.is_completed());
    assert_eq!(task.take_result(), None);
    task.complete("done".to_string());
    assert!(task.is_completed());
    assert!(task.has_result());
    assert_eq!(task.take_result().as_deref(), Some("done"));
    assert!(!task.has_result());
}

#[test]
fn failed_task_completes_with_its_result() {
    let mut task = CompletableTask::new();
    task.fail("broken".to_string());
    assert!(task.is_completed());
    assert_eq!(task.take_result().as_deref(), Some("broken"));
}

#[test]
fn delivery_decides_an_open_task() {
    assert!(matches!(CompletableTask::poll_delivery(Delivery::Delivered(Some("v".to_string()))), TaskPoll::Ready(v) if v == "v"));
    assert!(matches!(CompletableTask::poll_delivery(Delivery::Closed), TaskPoll::Pending));
    assert!(matches!(CompletableTask::poll_delivery(Delivery::Pending), TaskPoll::Pending));
}

#[test]
fn named_queues_drop_an_emptied_name() {
    let mut q: NamedQueues<u64> = NamedQueues::new();
    let k = "k".to_string();
    q.push_back(k.clone(), 1);
    q.push_back(k.clone(), 2);
    assert_eq!(q.pop_front(&k), Some(1));
    assert!(q.contains_key(&k));
    assert_eq!(q.pop_front(&k), Some(2));
    assert!(!q.contains_key(&k));
    assert_eq!(q.pop_front(&k), None);
}
