use durabletask::executor::{EventDirective, ExecutorError, OrchestrationExecutorContext};
use durabletask::history::{
    new_event_raised_event, new_execution_started_event, new_execution_terminated_event,
    new_orchestrator_started_event, new_task_completed_event, new_task_failed_event,
    new_task_scheduled_event, new_timer_fired_event, EventType, HistoryEvent, OrchestrationStatus,
    OrchestratorAction, OrchestratorActionType, Timestamp,
};
use durabletask::queues::NamedQueues;
use durabletask::registry::Registry;
use durabletask::types::{
    ActivityOptions, OrchestratorContext, OrchestratorFailure, OrchestratorResultValue, SignalWait,
};

/// What the orchestrators of these tests do on their first run.
enum Script {
    /// Calls the activity "test" with input "input", then waits for it.
    CallsActivity,
    /// Returns "hello" right away.
    ReturnsAtOnce,
}

/// Drives one replay the way a worker does, for orchestrators that run once.
fn replay(
    registry: &Registry,
    scripts: &[Script],
    events: Vec<HistoryEvent>,
) -> (OrchestrationExecutorContext, Option<OrchestratorContext>) {
    let mut ctx = OrchestrationExecutorContext::new();
    let mut received = NamedQueues::new();
    let mut octx: Option<OrchestratorContext> = None;
    for event in events {
        let directive = ctx.process_event(&mut received, event);
        if let EventDirective::StartOrchestrator { name, input } = directive {
            if let Some(slot) = registry.get_orchestrator(&name) {
                let mut o = OrchestratorContext::new("test".to_string(), input);
                match scripts[slot] {
                    Script::CallsActivity => {
                        o.call_activity(
                            ActivityOptions { activity_type: "test".to_string() },
                            "\"input\"".to_string(),
                            "test_activity".to_string(),
                        );
                        ctx.orchestrator_started(true);
                        octx = Some(o);
                    }
                    Script::ReturnsAtOnce => ctx.orchestrator_started(false),
                }
            }
        }
        if let Some(o) = octx.as_mut() {
            ctx.collect_sent(o);
        }
    }
    (ctx, octx)
}

/// The actions a replay leaves, as the executor's future answers them.
fn execute(
    registry: &Registry,
    scripts: &[Script],
    events: Vec<HistoryEvent>,
) -> Result<Vec<OrchestratorAction>, ExecutorError> {
    let (ctx, _) = replay(registry, scripts, events);
    Ok(ctx.get_actions())
}

#[test]
fn test_context() {
    let mut registry = Registry::new();
    registry.add_orchestrator("test".into(), 0);
    registry.add_orchestrator("test2".into(), 1);
    let scripts = [Script::CallsActivity, Script::ReturnsAtOnce];
    let events = vec![
        new_orchestrator_started_event(),
        new_execution_started_event("test", None),
        new_task_scheduled_event(1, "test", None),
    ];
    let actions = execute(&registry, &scripts, events);
    assert_eq!(actions.is_ok(), true);
    let actions = actions.unwrap();
    assert_eq!(actions.len(), 0);
}

#[test]
fn unconfirmed_action_stays_pending() {
    let mut registry = Registry::new();
    registry.add_orchestrator("test".into(), 0);
    let scripts = [Script::CallsActivity];
    let events = vec![new_orchestrator_started_event(), new_execution_started_event("test", None)];
    let (ctx, _) = replay(&registry, &scripts, events);
    let actions = ctx.get_actions();
    assert_eq!(actions.len(), 1);
    assert_eq!(actions[0].id, 1);
    match &actions[0].action_type {
        OrchestratorActionType::ScheduleTask { name, input } => {
            assert_eq!(name, "test");
            assert_eq!(input.as_deref(), Some("\"input\""));
        }
        _ => panic!("expected a scheduled task"),
    }
    assert_eq!(ctx.sequence_number(), 1);
}

#[test]
fn unknown_orchestrator_takes_no_action() {
    let registry = Registry::new();
    let events = vec![new_orchestrator_started_event(), new_execution_started_event("missing", None)];
    let (ctx, octx) = replay(&registry, &[], events);
    assert!(octx.is_none());
    assert_eq!(ctx.get_actions().len(), 0);
    assert_eq!(ctx.poll(), Err(ExecutorError::PolledWithoutOrchestrator));
}

#[test]
fn orchestrator_started_sets_the_time() {
    let mut ctx = OrchestrationExecutorContext::new();
    let mut received = NamedQueues::new();
    let event = HistoryEvent {
        event_id: -1,
        timestamp: Some(Timestamp { seconds: 1700, nanos: 5 }),
        event_type: Some(EventType::OrchestratorStarted),
    };
    assert!(matches!(ctx.process_event(&mut received, event), EventDirective::Nothing));
    assert_eq!(ctx.current_time_utc(), Timestamp { seconds: 1700, nanos: 5 });
    let _ = ctx.process_event(&mut received, new_orchestrator_started_event());
    assert_eq!(ctx.current_time_utc(), Timestamp { seconds: 1700, nanos: 5 });
}

#[test]
fn start_directive_carries_name_and_input() {
    let mut ctx = OrchestrationExecutorContext::new();
    let mut received = NamedQueues::new();
    match ctx.process_event(&mut received, new_execution_started_event("flow", Some("42".to_string()))) {
        EventDirective::StartOrchestrator { name, input } => {
            assert_eq!(name, "flow");
            assert_eq!(input.as_deref(), Some("42"));
        }
        _ => panic!("expected a start"),
    }
}

#[test]
fn task_is_released_once() {
    let mut ctx = OrchestrationExecutorContext::new();
    let mut received = NamedQueues::new();
    let mut octx = OrchestratorContext::new("i".to_string(), None);
    let id = octx.schedule_activity("a", None);
    ctx.orchestrator_started(true);
    ctx.collect_sent(&mut octx);
    match ctx.process_event(&mut received, new_task_completed_event(5, id, Some("out".to_string()))) {
        EventDirective::ReleaseTask { release: Some(r), poll } => {
            assert_eq!(r.task_id, id);
            assert_eq!(r.value.as_deref(), Some("out"));
            assert!(poll);
        }
        _ => panic!("expected a release"),
    }
    match ctx.process_event(&mut received, new_task_completed_event(6, id, Some("again".to_string()))) {
        EventDirective::ReleaseTask { release: None, poll } => assert!(poll),
        _ => panic!("expected nothing to release"),
    }
}

#[test]
fn failed_task_gets_the_message_without_a_run() {
    let mut ctx = OrchestrationExecutorContext::new();
    let mut received = NamedQueues::new();
    let mut octx = OrchestratorContext::new("i".to_string(), None);
    let id = octx.schedule_activity("a", None);
    ctx.orchestrator_started(true);
    ctx.collect_sent(&mut octx);
    match ctx.process_event(&mut received, new_task_failed_event(3, id, "boom".to_string())) {
        EventDirective::ReleaseTask { release: Some(r), poll } => {
            assert_eq!(r.value.as_deref(), Some("boom"));
            assert!(!poll);
        }
        _ => panic!("expected a release"),
    }
}

#[test]
fn fired_timer_resumes_with_empty_text() {
    let mut ctx = OrchestrationExecutorContext::new();
    let mut received = NamedQueues::new();
    let mut octx = OrchestratorContext::new("i".to_string(), None);
    let first = octx.create_timer(10, Timestamp { seconds: 0, nanos: 0 });
    let second = octx.create_timer(10, Timestamp { seconds: 0, nanos: 0 });
    ctx.orchestrator_started(true);
    ctx.collect_sent(&mut octx);
    let fire_at = Some(Timestamp { seconds: 0, nanos: 10_000_000 });
    match ctx.process_event(&mut received, new_timer_fired_event(4, first, fire_at)) {
        EventDirective::ReleaseTask { release: Some(r), poll: true } => {
            assert_eq!(r.task_id, first);
            assert_eq!(r.value.as_deref(), Some(""));
        }
        _ => panic!("expected a release"),
    }
    match ctx.process_event(&mut received, new_timer_fired_event(5, second, None)) {
        EventDirective::ReleaseTask { release: Some(r), poll: true } => assert!(r.value.is_none()),
        _ => panic!("expected a release"),
    }
}

#[test]
fn termination_completes_under_the_next_number() {
    let mut ctx = OrchestrationExecutorContext::new();
    let mut received = NamedQueues::new();
    let _ = ctx.next_sequence_number();
    let d = ctx.process_event(&mut received, new_execution_terminated_event(None, true));
    assert!(matches!(d, EventDirective::Nothing));
    assert_eq!(ctx.completion_status(), OrchestrationStatus::Terminated);
    let actions = ctx.get_actions();
    assert_eq!(actions.len(), 1);
    assert_eq!(actions[0].id, 2);
    match &actions[0].action_type {
        OrchestratorActionType::CompleteOrchestration { status, result } => {
            assert_eq!(*status, OrchestrationStatus::Terminated);
            assert!(result.is_none());
        }
        _ => panic!("expected a completion"),
    }
}

#[test]
fn execution_completed_runs_only_a_running_orchestration() {
    let mut ctx = OrchestrationExecutorContext::new();
    let mut received = NamedQueues::new();
    let completed = || HistoryEvent {
        event_id: -1,
        timestamp: None,
        event_type: Some(EventType::ExecutionCompleted { result: None }),
    };
    assert!(matches!(ctx.process_event(&mut received, completed()), EventDirective::Nothing));
    ctx.orchestrator_started(true);
    assert!(matches!(ctx.process_event(&mut received, completed()), EventDirective::PollIgnoringResult));
}

#[test]
fn poll_follows_the_orchestrator() {
    let mut ctx = OrchestrationExecutorContext::new();
    assert_eq!(ctx.poll(), Err(ExecutorError::PolledWithoutOrchestrator));
    ctx.orchestrator_started(false);
    assert_eq!(ctx.poll(), Err(ExecutorError::PolledWithoutOrchestrator));
    ctx.orchestrator_started(true);
    assert_eq!(ctx.poll(), Ok(true));
}

fn only_completion(ctx: &OrchestrationExecutorContext) -> (i32, OrchestrationStatus, Option<String>) {
    let actions: Vec<OrchestratorAction> = ctx.get_actions();
    assert_eq!(actions.len(), 1);
    match &actions[0].action_type {
        OrchestratorActionType::CompleteOrchestration { status, result } => (actions[0].id, *status, result.clone()),
        _ => panic!("expected a completion"),
    }
}

#[test]
fn output_completes_the_orchestration() {
    let mut ctx = OrchestrationExecutorContext::new();
    ctx.record_orchestrator_result(Ok(OrchestratorResultValue::Output(b"\"hello\"".to_vec())));
    let (id, status, result) = only_completion(&ctx);
    assert_eq!(id, 1);
    assert_eq!(status, OrchestrationStatus::Completed);
    assert_eq!(result.as_deref(), Some("\"hello\""));
}

#[test]
fn continue_as_new_and_failure_complete_without_result() {
    let mut ctx = OrchestrationExecutorContext::new();
    ctx.record_orchestrator_result(Ok(OrchestratorResultValue::ContinueAsNew));
    let (_, status, result) = only_completion(&ctx);
    assert_eq!(status, OrchestrationStatus::ContinuedAsNew);
    assert!(result.is_none());
    let mut ctx = OrchestrationExecutorContext::new();
    ctx.record_orchestrator_result(Err(OrchestratorFailure { message: "bad".to_string() }));
    let (_, status, result) = only_completion(&ctx);
    assert_eq!(status, OrchestrationStatus::Failed);
    assert!(result.is_none());
}

#[test]
fn set_complete_sets_the_status() {
    let mut ctx = OrchestrationExecutorContext::new();
    assert_eq!(ctx.completion_status(), OrchestrationStatus::Running);
    ctx.set_complete(OrchestrationStatus::Failed);
    assert_eq!(ctx.completion_status(), OrchestrationStatus::Failed);
}

#[test]
fn replaying_flag() {
    let mut ctx = OrchestrationExecutorContext::new();
    assert!(!ctx.is_replaying());
    ctx.set_replaying(true);
    assert!(ctx.is_replaying());
}

#[test]
fn buffered_signal_reaches_an_await_in_any_case() {
    let mut ctx = OrchestrationExecutorContext::new();
    let mut received = NamedQueues::new();
    let d = ctx.process_event(&mut received, new_event_raised_event(7, "Approval", Some("yes".to_string())));
    assert!(matches!(d, EventDirective::Nothing));
    assert!(received.contains_key(&"approval".to_string()));
    let mut octx = OrchestratorContext::new("i".to_string(), None);
    match octx.await_signal_event(&mut received, "APPROVAL", 9) {
        SignalWait::Received(input) => assert_eq!(input, "yes"),
        SignalWait::Waiting => panic!("expected the buffered signal"),
    }
    assert!(!received.contains_key(&"approval".to_string()));
}

#[test]
fn buffered_signals_come_out_oldest_first() {
    let mut ctx = OrchestrationExecutorContext::new();
    let mut received = NamedQueues::new();
    let _ = ctx.process_event(&mut received, new_event_raised_event(1, "go", Some("1".to_string())));
    let _ = ctx.process_event(&mut received, new_event_raised_event(2, "Go", Some("2".to_string())));
    let mut octx = OrchestratorContext::new("i".to_string(), None);
    for expected in ["1", "2"] {
        match octx.await_signal_event(&mut received, "go", 0) {
            SignalWait::Received(input) => assert_eq!(input, expected),
            SignalWait::Waiting => panic!("expected a buffered signal"),
        }
    }
    assert!(matches!(octx.await_signal_event(&mut received, "go", 0), SignalWait::Waiting));
}

#[test]
fn waiter_is_resumed_by_the_next_signal() {
    let mut ctx = OrchestrationExecutorContext::new();
    let mut received = NamedQueues::new();
    let mut octx = OrchestratorContext::new("i".to_string(), None);
    ctx.orchestrator_started(true);
    assert!(matches!(octx.await_signal_event(&mut received, "Done", 41), SignalWait::Waiting));
    ctx.collect_sent(&mut octx);
    match ctx.process_event(&mut received, new_event_raised_event(3, "DONE", Some("ok".to_string()))) {
        EventDirective::ResumeWaiter { waiter, input } => {
            assert_eq!(waiter, 41);
            assert_eq!(input.as_deref(), Some("ok"));
        }
        _ => panic!("expected the waiter to resume"),
    }
    let d = ctx.process_event(&mut received, new_event_raised_event(4, "done", None));
    assert!(matches!(d, EventDirective::Nothing));
    assert!(received.contains_key(&"done".to_string()));
}

#[test]
fn nothing_is_collected_before_the_orchestrator_runs() {
    let mut ctx = OrchestrationExecutorContext::new();
    let mut octx = OrchestratorContext::new("i".to_string(), None);
    let _ = octx.schedule_activity("a", None);
    ctx.collect_sent(&mut octx);
    assert_eq!(ctx.get_actions().len(), 0);
    let (actions, tasks, waiters) = octx.take_sent();
    assert_eq!(actions.len(), 1);
    assert_eq!(tasks, vec![1]);
    assert!(waiters.is_empty());
}

#[test]
fn history_without_type_changes_nothing() {
    let mut ctx = OrchestrationExecutorContext::new();
    let mut received = NamedQueues::new();
    let d = ctx.process_event(&mut received, HistoryEvent { event_id: 3, timestamp: None, event_type: None });
    assert!(matches!(d, EventDirective::Nothing));
    assert_eq!(ctx.sequence_number(), 0);
}

#[test]
fn waiters_are_resumed_in_order() {
    let mut ctx = OrchestrationExecutorContext::new();
    let mut received = NamedQueues::new();
    let mut octx = OrchestratorContext::new("i".to_string(), None);
    ctx.orchestrator_started(true);
    assert!(matches!(octx.await_signal_event(&mut received, "x", 1), SignalWait::Waiting));
    assert!(matches!(octx.await_signal_event(&mut received, "X", 2), SignalWait::Waiting));
    ctx.collect_sent(&mut octx);
    for (expected, input) in [(1u64, "a"), (2u64, "b")] {
        match ctx.process_event(&mut received, new_event_raised_event(9, "x", Some(input.to_string()))) {
            EventDirective::ResumeWaiter { waiter, input: got } => {
                assert_eq!(waiter, expected);
                assert_eq!(got.as_deref(), Some(input));
            }
            _ => panic!("expected a waiter to resume"),
        }
    }
    assert!(!received.contains_key(&"x".to_string()));
}

#[test]
fn buffered_signal_without_input_is_refused() {
    let mut ctx = OrchestrationExecutorContext::new();
    let mut received = NamedQueues::new();
    let _ = ctx.process_event(&mut received, new_event_raised_event(1, "go", None));
    let mut octx = OrchestratorContext::new("i".to_string(), None);
    assert!(octx.checked_await_signal_event(&mut received, "GO", 3).is_none());
    assert!(received.contains_key(&"go".to_string()));
    let (_, _, waiters) = octx.take_sent();
    assert!(waiters.is_empty());
    assert!(matches!(octx.checked_await_signal_event(&mut received, "other", 4), Some(SignalWait::Waiting)));
}

#[test]
fn completions_need_a_started_orchestrator() {
    assert!(OrchestrationExecutorContext::needs_orchestrator(&new_task_completed_event(1, 1, None)));
    assert!(OrchestrationExecutorContext::needs_orchestrator(&new_timer_fired_event(1, 1, None)));
    assert!(!OrchestrationExecutorContext::needs_orchestrator(&new_task_failed_event(1, 1, "x".to_string())));
    assert!(!OrchestrationExecutorContext::needs_orchestrator(&new_event_raised_event(1, "x", None)));
}
