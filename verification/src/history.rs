//! The orchestration history as it comes from the task hub, and the actions
//! that an orchestration hands back to it.
use vstd::prelude::*;

verus! {

/// A point in time: seconds since the Unix epoch and the nanoseconds within
/// that second.
#[derive(Clone, Copy, Debug, PartialEq, Eq, Structural)]
pub struct Timestamp {
    pub seconds: i64,
    pub nanos: i32,
}

impl Timestamp {
    /// The epoch, which the executor context starts from.
    pub fn zero() -> (res: Timestamp)
        ensures
            res.seconds == 0 && res.nanos == 0,
    {
        Timestamp { seconds: 0, nanos: 0 }
    }

    /// The nanoseconds are within one second.
    pub open spec fn normalized(self) -> bool {
        0 <= self.nanos < 1_000_000_000
    }

    /// The instant as nanoseconds since the epoch.
    pub open spec fn total_nanos(self) -> int {
        self.seconds * 1_000_000_000 + self.nanos
    }
}

/// Details of a failed task.
pub struct FailureDetails {
    pub error_type: String,
    pub error_message: String,
}

/// The lifecycle states of an orchestration.
#[derive(Clone, Copy, Debug, PartialEq, Eq, Structural)]
pub enum OrchestrationStatus {
    Running,
    Completed,
    ContinuedAsNew,
    Failed,
    Canceled,
    Terminated,
    Pending,
    Suspended,
}

/// What a history event records.
pub enum EventType {
    ExecutionStarted { name: String, input: Option<String> },
    ExecutionCompleted { result: Option<String> },
    ExecutionTerminated { input: Option<String>, recurse: bool },
    TaskScheduled { name: String, input: Option<String> },
    TaskCompleted { task_scheduled_id: i32, result: Option<String> },
    TaskFailed { task_scheduled_id: i32, failure_details: Option<FailureDetails> },
    SubOrchestrationInstanceCreated { instance_id: String, name: String, input: Option<String> },
    SubOrchestrationInstanceCompleted { task_scheduled_id: i32, result: Option<String> },
    SubOrchestrationInstanceFailed { task_scheduled_id: i32, failure_details: Option<FailureDetails> },
    TimerCreated { fire_at: Option<Timestamp> },
    TimerFired { timer_id: i32, fire_at: Option<Timestamp> },
    OrchestratorStarted,
    OrchestratorCompleted,
    EventSent { instance_id: String, name: String, input: Option<String> },
    EventRaised { name: String, input: Option<String> },
    GenericEvent { data: Option<String> },
    HistoryState,
    ContinueAsNew { input: Option<String> },
    ExecutionSuspended { input: Option<String> },
    ExecutionResumed { input: Option<String> },
}

/// One entry of an orchestration's history.
pub struct HistoryEvent {
    pub event_id: i32,
    pub timestamp: Option<Timestamp>,
    pub event_type: Option<EventType>,
}

/// What an orchestrator action asks the task hub to do.
pub enum OrchestratorActionType {
    ScheduleTask { name: String, input: Option<String> },
    CreateSubOrchestration { instance_id: String, name: String, input: Option<String> },
    CreateTimer { fire_at: Timestamp },
    CompleteOrchestration { status: OrchestrationStatus, result: Option<String> },
    TerminateOrchestration { instance_id: String, reason: Option<String>, recurse: bool },
}

/// An action of an orchestration, under its sequence number.
pub struct OrchestratorAction {
    pub id: i32,
    pub action_type: OrchestratorActionType,
}

/// An action that schedules the activity `name`.
pub fn new_schedule_task_action(id: i32, name: &str, input: Option<String>) -> (res: OrchestratorAction)
    ensures
        res.id == id,
        is_schedule_task(res, name@, input),
{
    OrchestratorAction {
        id,
        action_type: OrchestratorActionType::ScheduleTask { name: name.to_string(), input },
    }
}

/// An action that creates a timer firing at `fire_at`.
pub fn new_create_timer_action(id: i32, fire_at: Timestamp) -> (res: OrchestratorAction)
    ensures
        res == (OrchestratorAction { id, action_type: OrchestratorActionType::CreateTimer { fire_at } }),
{
    OrchestratorAction { id, action_type: OrchestratorActionType::CreateTimer { fire_at } }
}

/// An action that starts the sub-orchestration `name` under `instance_id`.
pub fn new_create_sub_orchestration_action(
    id: i32,
    name: &str,
    instance_id: &str,
    input: Option<String>,
) -> (res: OrchestratorAction)
    ensures
        res.id == id,
        res.action_type matches OrchestratorActionType::CreateSubOrchestration {
            instance_id: i,
            name: n,
            input: inp,
        } && n@ == name@ && i@ == instance_id@ && inp == input,
{
    OrchestratorAction {
        id,
        action_type: OrchestratorActionType::CreateSubOrchestration {
            instance_id: instance_id.to_string(),
            name: name.to_string(),
            input,
        },
    }
}

/// An action that completes the orchestration with `status`.
pub fn new_complete_orchestration_action(
    id: i32,
    status: OrchestrationStatus,
    result: Option<String>,
) -> (res: OrchestratorAction)
    ensures
        res == complete_action(id, status, result),
{
    OrchestratorAction {
        id,
        action_type: OrchestratorActionType::CompleteOrchestration { status, result },
    }
}

/// An action that terminates the orchestration `instance_id`.
pub fn new_terminate_orchestration_action(
    id: i32,
    instance_id: &str,
    recurse: bool,
    reason: Option<String>,
) -> (res: OrchestratorAction)
    ensures
        res.id == id,
        res.action_type matches OrchestratorActionType::TerminateOrchestration {
            instance_id: i,
            reason: r,
            recurse: rec,
        } && i@ == instance_id@ && r == reason && rec == recurse,
{
    OrchestratorAction {
        id,
        action_type: OrchestratorActionType::TerminateOrchestration {
            instance_id: instance_id.to_string(),
            reason,
            recurse,
        },
    }
}

/// The action that completes the orchestration with `status` and `result`.
pub open spec fn complete_action(id: i32, status: OrchestrationStatus, result: Option<String>) -> OrchestratorAction {
    OrchestratorAction { id, action_type: OrchestratorActionType::CompleteOrchestration { status, result } }
}

/// A copy of an optional string.
pub fn copy_opt_string(s: &Option<String>) -> (res: Option<String>)
    ensures
        res == *s,
{
    match s {
        Some(v) => Some(v.clone()),
        None => None,
    }
}

impl Clone for OrchestratorActionType {
    fn clone(&self) -> (res: Self)
        ensures
            res == *self,
    {
        match self {
            OrchestratorActionType::ScheduleTask { name, input } => OrchestratorActionType::ScheduleTask {
                name: name.clone(),
                input: copy_opt_string(input),
            },
            OrchestratorActionType::CreateSubOrchestration { instance_id, name, input } =>
                OrchestratorActionType::CreateSubOrchestration {
                instance_id: instance_id.clone(),
                name: name.clone(),
                input: copy_opt_string(input),
            },
            OrchestratorActionType::CreateTimer { fire_at } => OrchestratorActionType::CreateTimer {
                fire_at: *fire_at,
            },
            OrchestratorActionType::CompleteOrchestration { status, result } =>
                OrchestratorActionType::CompleteOrchestration { status: *status, result: copy_opt_string(result) },
            OrchestratorActionType::TerminateOrchestration { instance_id, reason, recurse } =>
                OrchestratorActionType::TerminateOrchestration {
                instance_id: instance_id.clone(),
                reason: copy_opt_string(reason),
                recurse: *recurse,
            },
        }
    }
}

impl Clone for OrchestratorAction {
    fn clone(&self) -> (res: Self)
        ensures
            res == *self,
    {
        OrchestratorAction { id: self.id, action_type: self.action_type.clone() }
    }
}

/// `a` schedules the activity `name` with `input`.
pub open spec fn is_schedule_task(a: OrchestratorAction, name: Seq<char>, input: Option<String>) -> bool {
    a.action_type matches OrchestratorActionType::ScheduleTask { name: n, input: i } && n@ == name && i == input
}

/// `a` starts the sub-orchestration `name` as `instance_id` with `input`.
pub open spec fn is_create_sub_orchestration(
    a: OrchestratorAction,
    name: Seq<char>,
    instance_id: Seq<char>,
    input: Option<String>,
) -> bool {
    a.action_type matches OrchestratorActionType::CreateSubOrchestration { instance_id: iid, name: n, input: i }
        && n@ == name && iid@ == instance_id && i == input
}

/// The event that opens each run of the orchestrator.
pub fn new_orchestrator_started_event() -> (res: HistoryEvent)
    ensures
        res.event_id == -1,
        res.timestamp is None,
        res.event_type == Some(EventType::OrchestratorStarted),
{
    HistoryEvent { event_id: -1, timestamp: None, event_type: Some(EventType::OrchestratorStarted) }
}

/// The event that starts the orchestrator `name` with `input`.
pub fn new_execution_started_event(name: &str, input: Option<String>) -> (res: HistoryEvent)
    ensures
        res.event_id == -1,
        res.timestamp is None,
        res.event_type matches Some(EventType::ExecutionStarted { name: n, input: i }) && n@ == name@ && i == input,
{
    HistoryEvent {
        event_id: -1,
        timestamp: None,
        event_type: Some(EventType::ExecutionStarted { name: name.to_string(), input }),
    }
}

/// The event that confirms that task `event_id`, the activity `name`, was scheduled.
pub fn new_task_scheduled_event(event_id: i32, name: &str, input: Option<String>) -> (res: HistoryEvent)
    ensures
        res.event_id == event_id,
        res.timestamp is None,
        res.event_type matches Some(EventType::TaskScheduled { name: n, input: i }) && n@ == name@ && i == input,
{
    HistoryEvent {
        event_id,
        timestamp: None,
        event_type: Some(EventType::TaskScheduled { name: name.to_string(), input }),
    }
}

/// The event that task `task_scheduled_id` completed with `result`.
pub fn new_task_completed_event(event_id: i32, task_scheduled_id: i32, result: Option<String>) -> (res: HistoryEvent)
    ensures
        res == (HistoryEvent {
            event_id,
            timestamp: None,
            event_type: Some(EventType::TaskCompleted { task_scheduled_id, result }),
        }),
{
    HistoryEvent { event_id, timestamp: None, event_type: Some(EventType::TaskCompleted { task_scheduled_id, result }) }
}

/// The event that task `task_scheduled_id` failed with `message`.
pub fn new_task_failed_event(event_id: i32, task_scheduled_id: i32, message: String) -> (res: HistoryEvent)
    ensures
        res.event_id == event_id,
        res.timestamp is None,
        res.event_type matches Some(EventType::TaskFailed { task_scheduled_id: t, failure_details: Some(f) })
            && t == task_scheduled_id && f.error_message == message,
{
    HistoryEvent {
        event_id,
        timestamp: None,
        event_type: Some(
            EventType::TaskFailed {
                task_scheduled_id,
                failure_details: Some(FailureDetails { error_type: String::new(), error_message: message }),
            },
        ),
    }
}

/// The event that timer `timer_id` fired at `fire_at`.
pub fn new_timer_fired_event(event_id: i32, timer_id: i32, fire_at: Option<Timestamp>) -> (res: HistoryEvent)
    ensures
        res == (HistoryEvent { event_id, timestamp: None, event_type: Some(EventType::TimerFired { timer_id, fire_at }) }),
{
    HistoryEvent { event_id, timestamp: None, event_type: Some(EventType::TimerFired { timer_id, fire_at }) }
}

/// The event that the signal `name` was raised with `input`.
pub fn new_event_raised_event(event_id: i32, name: &str, input: Option<String>) -> (res: HistoryEvent)
    ensures
        res.event_id == event_id,
        res.timestamp is None,
        res.event_type matches Some(EventType::EventRaised { name: n, input: i }) && n@ == name@ && i == input,
{
    HistoryEvent {
        event_id,
        timestamp: None,
        event_type: Some(EventType::EventRaised { name: name.to_string(), input }),
    }
}

/// The event that the orchestration was terminated.
pub fn new_execution_terminated_event(input: Option<String>, recurse: bool) -> (res: HistoryEvent)
    ensures
        res == (HistoryEvent {
            event_id: -1i32,
            timestamp: None,
            event_type: Some(EventType::ExecutionTerminated { input, recurse }),
        }),
{
    HistoryEvent { event_id: -1, timestamp: None, event_type: Some(EventType::ExecutionTerminated { input, recurse }) }
}

} // verus!
