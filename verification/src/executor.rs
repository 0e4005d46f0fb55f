//! The executor's side of an orchestration replay: it walks the history,
//! keeps the actions that history has not confirmed yet, and tells the
//! worker which task or waiter to resume and when to run the orchestration.
use std::collections::{HashMap, HashSet};
use vstd::prelude::*;
use vstd::std_specs::hash::spec_values_iter;
use vstd::std_specs::iter::IteratorSpec;
use vstd::utf8::{decode_utf8, valid_utf8};

use crate::history::{
    complete_action, new_complete_orchestration_action, EventType, HistoryEvent, OrchestrationStatus,
    OrchestratorAction, Timestamp,
};
use crate::queues::{queue_of, NamedQueues};
use crate::text::{lowercase, string_from_utf8, to_lowercase};
use crate::types::{OrchestratorContext, OrchestratorResult, OrchestratorResultValue};

verus! {

/// The executor's state, as the contracts speak of it.
pub struct ExecutorView {
    pub is_replaying: bool,
    pub is_complete: bool,
    pub sequence_number: i32,
    pub current_time_utc: Timestamp,
    /// Actions taken by the orchestration that history has not confirmed yet.
    pub pending_actions: Map<i32, OrchestratorAction>,
    /// Tasks of the orchestration that await their completion.
    pub pending_tasks: Set<i32>,
    /// Waiters of the orchestration per (lowercase) signal name, oldest first.
    pub pending_events: Map<Seq<char>, Seq<u64>>,
    /// The orchestration has been started and left unfinished by its first run.
    pub orchestrator_running: bool,
    pub completion_status: OrchestrationStatus,
}

/// A task the executor lets go of: the value to hand it, if any.
pub struct TaskRelease {
    pub task_id: i32,
    pub value: Option<String>,
}

/// What the worker does after an event was processed.
pub enum EventDirective {
    Nothing,
    /// Look the orchestrator `name` up, start it with `input` and run it
    /// once; report with `orchestrator_started`.
    StartOrchestrator { name: String, input: Option<String> },
    /// Run the orchestration once and disregard what it returns.
    PollIgnoringResult,
    /// Hand the released task its value (drop it where there is none), then
    /// run the orchestration when `poll` is set.
    ReleaseTask { release: Option<TaskRelease>, poll: bool },
    /// Hand `input` to the signal waiter `waiter`, then run the orchestration.
    ResumeWaiter { waiter: u64, input: Option<String> },
}

/// Why the orchestration could not be run.
#[derive(Clone, Copy, Debug, PartialEq, Eq, Structural)]
pub enum ExecutorError {
    PolledWithoutOrchestrator,
}

/// The executor's state during one replay.
pub struct OrchestrationExecutorContext {
    is_replaying: bool,
    is_complete: bool,
    sequence_number: i32,
    current_time_utc: Timestamp,
    pending_actions: HashMap<i32, OrchestratorAction>,
    pending_tasks: HashSet<i32>,
    pending_events: NamedQueues<u64>,
    orchestrator_running: bool,
    completion_status: OrchestrationStatus,
}

impl View for OrchestrationExecutorContext {
    type V = ExecutorView;

    closed spec fn view(&self) -> ExecutorView {
        ExecutorView {
            is_replaying: self.is_replaying,
            is_complete: self.is_complete,
            sequence_number: self.sequence_number,
            current_time_utc: self.current_time_utc,
            pending_actions: self.pending_actions@,
            pending_tasks: self.pending_tasks@,
            pending_events: self.pending_events.view(),
            orchestrator_running: self.orchestrator_running,
            completion_status: self.completion_status,
        }
    }
}

/// Every pending action is kept under its own id.
pub open spec fn actions_keyed_by_id(m: Map<i32, OrchestratorAction>) -> bool {
    forall|k: i32| #[trigger] m.contains_key(k) ==> m[k].id == k
}

/// Waiters are only ever collected from a running orchestration.
pub open spec fn waiters_imply_running(v: ExecutorView) -> bool {
    v.orchestrator_running || v.pending_events == Map::<Seq<char>, Seq<u64>>::empty()
}

/// Processing `event` runs the orchestration afterwards, whatever the
/// executor's state.
pub open spec fn always_polls(event: HistoryEvent) -> bool {
    match event.event_type {
        Some(EventType::TaskCompleted { .. }) => true,
        Some(EventType::SubOrchestrationInstanceCompleted { .. }) => true,
        Some(EventType::SubOrchestrationInstanceFailed { .. }) => true,
        Some(EventType::TimerFired { .. }) => true,
        _ => false,
    }
}

/// The first state of a replay.
pub open spec fn initial_view(v: ExecutorView) -> bool {
    &&& !v.is_replaying
    &&& !v.is_complete
    &&& v.sequence_number == 0
    &&& v.current_time_utc == Timestamp { seconds: 0, nanos: 0 }
    &&& v.pending_actions.is_empty()
    &&& v.pending_tasks.is_empty()
    &&& v.pending_events.is_empty()
    &&& !v.orchestrator_running
    &&& v.completion_status == OrchestrationStatus::Running
}

/// `post` marks the orchestration complete with `status`, unless it already was.
pub open spec fn sets_complete(pre: ExecutorView, post: ExecutorView, status: OrchestrationStatus) -> bool {
    post == (if pre.is_complete { pre } else { ExecutorView { completion_status: status, ..pre } })
}

/// Releasing task `id` with `value` (then running the orchestration if `poll`).
pub open spec fn releases_task(
    pre: ExecutorView,
    post: ExecutorView,
    d: EventDirective,
    id: i32,
    value: Option<String>,
    poll: bool,
) -> bool {
    if pre.pending_tasks.contains(id) {
        &&& post == ExecutorView { pending_tasks: pre.pending_tasks.remove(id), ..pre }
        &&& d == EventDirective::ReleaseTask { release: Some(TaskRelease { task_id: id, value }), poll }
    } else {
        post == pre && d == EventDirective::ReleaseTask { release: None, poll }
    }
}

/// Processing `event` takes the executor from `pre` to `post`, the buffer of
/// raised signals from `pre_r` to `post_r`, and asks the worker for `d`.
pub open spec fn processes_event(
    pre: ExecutorView,
    pre_r: Map<Seq<char>, Seq<Option<String>>>,
    event: HistoryEvent,
    post: ExecutorView,
    post_r: Map<Seq<char>, Seq<Option<String>>>,
    d: EventDirective,
) -> bool {
    match event.event_type {
        None => post == pre && post_r == pre_r && d == EventDirective::Nothing,
        Some(t) => match t {
            EventType::OrchestratorStarted => {
                &&& post == (match event.timestamp {
                    Some(ts) => ExecutorView { current_time_utc: ts, ..pre },
                    None => pre,
                })
                &&& post_r == pre_r
                &&& d == EventDirective::Nothing
            },
            EventType::ExecutionStarted { name, input } => {
                post == pre && post_r == pre_r && d == EventDirective::StartOrchestrator { name, input }
            },
            EventType::ExecutionCompleted { .. } => {
                &&& post == pre
                &&& post_r == pre_r
                &&& d == (if pre.orchestrator_running {
                    EventDirective::PollIgnoringResult
                } else {
                    EventDirective::Nothing
                })
            },
            EventType::ExecutionTerminated { .. } => {
                let id = pre.sequence_number + 1;
                exists|mid: ExecutorView|
                    #![trigger sets_complete(pre, mid, OrchestrationStatus::Terminated)]
                    sets_complete(pre, mid, OrchestrationStatus::Terminated) && post == ExecutorView {
                        sequence_number: id as i32,
                        pending_actions: mid.pending_actions.insert(
                            id as i32,
                            complete_action(id as i32, OrchestrationStatus::Terminated, None),
                        ),
                        ..mid
                    } && post_r == pre_r && d == EventDirective::Nothing
            },
            EventType::TaskScheduled { .. }
            | EventType::SubOrchestrationInstanceCreated { .. }
            | EventType::TimerCreated { .. } => {
                &&& post == ExecutorView { pending_actions: pre.pending_actions.remove(event.event_id), ..pre }
                &&& post_r == pre_r
                &&& d == EventDirective::Nothing
            },
            EventType::TaskCompleted { task_scheduled_id, result }
            | EventType::SubOrchestrationInstanceCompleted { task_scheduled_id, result } => {
                releases_task(pre, post, d, task_scheduled_id, result, true) && post_r == pre_r
            },
            EventType::TaskFailed { task_scheduled_id, failure_details } => {
                &&& releases_task(
                    pre,
                    post,
                    d,
                    task_scheduled_id,
                    match failure_details {
                        Some(f) => Some(f.error_message),
                        None => None,
                    },
                    false,
                )
                &&& post_r == pre_r
            },
            EventType::SubOrchestrationInstanceFailed { task_scheduled_id, failure_details } => {
                &&& releases_task(
                    pre,
                    post,
                    d,
                    task_scheduled_id,
                    match failure_details {
                        Some(f) => Some(f.error_message),
                        None => None,
                    },
                    true,
                )
                &&& post_r == pre_r
            },
            EventType::TimerFired { timer_id, fire_at } => {
                &&& post_r == pre_r
                &&& exists|value: Option<String>|
                    #![trigger releases_task(pre, post, d, timer_id, value, true)]
                    releases_task(pre, post, d, timer_id, value, true) && (match value {
                        Some(v) => fire_at is Some && v@ == Seq::<char>::empty(),
                        None => fire_at is None,
                    })
            },
            EventType::EventRaised { name, input } => {
                let key = lowercase(name@);
                if pre.pending_events.contains_key(key) {
                    let q = pre.pending_events[key];
                    &&& post == ExecutorView {
                        pending_events: if q.len() == 1 {
                            pre.pending_events.remove(key)
                        } else {
                            pre.pending_events.insert(key, q.drop_first())
                        },
                        ..pre
                    }
                    &&& post_r == pre_r
                    &&& d == EventDirective::ResumeWaiter { waiter: q[0], input }
                } else {
                    &&& post == pre
                    &&& post_r == pre_r.insert(key, queue_of(pre_r, key).push(input))
                    &&& d == EventDirective::Nothing
                }
            },
            _ => post == pre && post_r == pre_r && d == EventDirective::Nothing,
        },
    }
}

/// Processing `event` takes a sequence number.
pub open spec fn takes_sequence_number(event: HistoryEvent) -> bool {
    event.event_type matches Some(EventType::ExecutionTerminated { .. })
}

impl OrchestrationExecutorContext {
    /// The internal invariant: the queues of waiters are well formed and
    /// every pending action is kept under its own id.
    pub closed spec fn wf(&self) -> bool {
        &&& self.pending_events.wf()
        &&& actions_keyed_by_id(self.pending_actions@)
        &&& waiters_imply_running(self@)
    }

    /// An executor context that has seen no event yet.
    pub fn new() -> (res: Self)
        ensures
            res.wf(),
            initial_view(res@),
    {
        OrchestrationExecutorContext {
            is_replaying: false,
            is_complete: false,
            sequence_number: 0,
            current_time_utc: Timestamp::zero(),
            pending_actions: HashMap::new(),
            pending_tasks: HashSet::new(),
            pending_events: NamedQueues::new(),
            orchestrator_running: false,
            completion_status: OrchestrationStatus::Running,
        }
    }

    /// Takes the next sequence number.
    pub fn next_sequence_number(&mut self) -> (res: i32)
        requires
            old(self).wf(),
            old(self)@.sequence_number < i32::MAX,
        ensures
            final(self).wf(),
            res == old(self)@.sequence_number + 1,
            final(self)@ == (ExecutorView { sequence_number: res, ..old(self)@ }),
    {
        self.sequence_number = self.sequence_number + 1;
        self.sequence_number
    }

    /// Marks the orchestration complete with `status`, unless it already is.
    pub fn set_complete(&mut self, status: OrchestrationStatus)
        requires
            old(self).wf(),
        ensures
            final(self).wf(),
            sets_complete(old(self)@, final(self)@, status),
    {
        if self.is_complete {
            return;
        }
        self.completion_status = status;
    }

    /// Whether the events now processed replay the history (`true`) or are new.
    pub fn set_replaying(&mut self, replaying: bool)
        requires
            old(self).wf(),
        ensures
            final(self).wf(),
            final(self)@ == (ExecutorView { is_replaying: replaying, ..old(self)@ }),
    {
        self.is_replaying = replaying;
    }

    pub fn is_replaying(&self) -> (res: bool)
        ensures
            res == self@.is_replaying,
    {
        self.is_replaying
    }

    pub fn completion_status(&self) -> (res: OrchestrationStatus)
        ensures
            res == self@.completion_status,
    {
        self.completion_status
    }

    pub fn sequence_number(&self) -> (res: i32)
        ensures
            res == self@.sequence_number,
    {
        self.sequence_number
    }

    pub fn current_time_utc(&self) -> (res: Timestamp)
        ensures
            res == self@.current_time_utc,
    {
        self.current_time_utc
    }

    /// Records how the orchestration's first run went: it stays running
    /// when that run left it unfinished.
    pub fn orchestrator_started(&mut self, unfinished: bool)
        requires
            old(self).wf(),
        ensures
            final(self).wf(),
            final(self)@ == (ExecutorView {
                orchestrator_running: old(self)@.orchestrator_running || unfinished,
                ..old(self)@
            }),
    {
        if unfinished {
            self.orchestrator_running = true;
        }
    }

    fn release_task(&mut self, id: i32, value: Option<String>, poll: bool) -> (d: EventDirective)
        requires
            old(self).wf(),
        ensures
            final(self).wf(),
            releases_task(old(self)@, final(self)@, d, id, value, poll),
    {
        if self.pending_tasks.remove(&id) {
            proof {
                assert(self@ == ExecutorView { pending_tasks: old(self)@.pending_tasks.remove(id), ..old(self)@ });
            }
            EventDirective::ReleaseTask { release: Some(TaskRelease { task_id: id, value }), poll }
        } else {
            proof {
                assert(self.pending_tasks@ =~= old(self).pending_tasks@);
            }
            EventDirective::ReleaseTask { release: None, poll }
        }
    }

    /// Whether processing `event` runs the orchestration afterwards in every
    /// state, which needs it started (or complete).
    pub fn needs_orchestrator(event: &HistoryEvent) -> (res: bool)
        ensures
            res == always_polls(*event),
    {
        match &event.event_type {
            Some(EventType::TaskCompleted { .. }) => true,
            Some(EventType::SubOrchestrationInstanceCompleted { .. }) => true,
            Some(EventType::SubOrchestrationInstanceFailed { .. }) => true,
            Some(EventType::TimerFired { .. }) => true,
            _ => false,
        }
    }

    /// Processes one history event against the raised signals buffered in
    /// `received_events`, and says what the worker does next.
    pub fn process_event(
        &mut self,
        received_events: &mut NamedQueues<Option<String>>,
        event: HistoryEvent,
    ) -> (d: EventDirective)
        requires
            old(self).wf(),
            old(received_events).wf(),
            takes_sequence_number(event) ==> old(self)@.sequence_number < i32::MAX,
            always_polls(event) ==> old(self)@.orchestrator_running || old(self)@.is_complete,
        ensures
            final(self).wf(),
            final(received_events).wf(),
            processes_event(old(self)@, old(received_events).view(), event, final(self)@, final(received_events).view(), d),
            d is ResumeWaiter ==> old(self)@.orchestrator_running,
    {
        let event_id = event.event_id;
        let timestamp = event.timestamp;
        match event.event_type {
            None => EventDirective::Nothing,
            Some(event_type) => match event_type {
                EventType::OrchestratorStarted => {
                    if let Some(ts) = timestamp {
                        self.current_time_utc = ts;
                    }
                    EventDirective::Nothing
                },
                EventType::ExecutionStarted { name, input } => EventDirective::StartOrchestrator { name, input },
                EventType::ExecutionCompleted { .. } => {
                    if self.orchestrator_running {
                        EventDirective::PollIgnoringResult
                    } else {
                        EventDirective::Nothing
                    }
                },
                EventType::ExecutionTerminated { .. } => {
                    self.set_complete(OrchestrationStatus::Terminated);
                    let ghost mid = self@;
                    let task_id = self.next_sequence_number();
                    let action = new_complete_orchestration_action(task_id, OrchestrationStatus::Terminated, None);
                    self.pending_actions.insert(task_id, action);
                    proof {
                        assert(sets_complete(old(self)@, mid, OrchestrationStatus::Terminated));
                    }
                    EventDirective::Nothing
                },
                EventType::TaskScheduled { .. }
                | EventType::SubOrchestrationInstanceCreated { .. }
                | EventType::TimerCreated { .. } => {
                    let _ = self.pending_actions.remove(&event_id);
                    EventDirective::Nothing
                },
                EventType::TaskCompleted { task_scheduled_id, result } => {
                    self.release_task(task_scheduled_id, result, true)
                },
                EventType::SubOrchestrationInstanceCompleted { task_scheduled_id, result } => {
                    self.release_task(task_scheduled_id, result, true)
                },
                EventType::TaskFailed { task_scheduled_id, failure_details } => {
                    let value = match failure_details {
                        Some(f) => Some(f.error_message),
                        None => None,
                    };
                    self.release_task(task_scheduled_id, value, false)
                },
                EventType::SubOrchestrationInstanceFailed { task_scheduled_id, failure_details } => {
                    let value = match failure_details {
                        Some(f) => Some(f.error_message),
                        None => None,
                    };
                    self.release_task(task_scheduled_id, value, true)
                },
                EventType::TimerFired { timer_id, fire_at } => {
                    let value = match fire_at {
                        Some(_) => Some(String::new()),
                        None => None,
                    };
                    let d = self.release_task(timer_id, value, true);
                    proof {
                        assert(releases_task(old(self)@, self@, d, timer_id, value, true));
                    }
                    d
                },
                EventType::EventRaised { name, input } => {
                    let key = to_lowercase(name.as_str());
                    if self.pending_events.contains_key(&key) {
                        let waiter = self.pending_events.pop_front(&key);
                        match waiter {
                            Some(w) => EventDirective::ResumeWaiter { waiter: w, input },
                            None => EventDirective::Nothing,
                        }
                    } else {
                        received_events.push_back(key, input);
                        EventDirective::Nothing
                    }
                },
                _ => EventDirective::Nothing,
            },
        }
    }

    /// The pending actions, each once, in no particular order.
    pub fn get_actions(&self) -> (res: Vec<OrchestratorAction>)
        requires
            self.wf(),
        ensures
            actions_keyed_by_id(self@.pending_actions),
            lists_actions(self@.pending_actions, res@),
    {
        let mut res: Vec<OrchestratorAction> = Vec::new();
        let ghost m = self.pending_actions@;
        let ghost vals = spec_values_iter(&self.pending_actions).remaining();
        for a in it: self.pending_actions.values()
            invariant
                it.seq() == vals,
                res@.len() == it.index(),
                forall|j: int| 0 <= j < it.index() ==> res@[j] == *vals[j],
        {
            res.push(a.clone());
        }
        proof {
            assert(res@ =~= vals.unref());
            assert(vals.unref().to_set() == m.values());
            assert forall|i: int| 0 <= i < res@.len() implies #[trigger] m.contains_key(res@[i].id) && m[res@[i].id] == res@[i] by {
                assert(res@.to_set().contains(res@[i]));
                let k = choose|k: i32| #[trigger] m.contains_key(k) && m[k] == res@[i];
                assert(m[k].id == k);
            }
            assert forall|k: i32| #[trigger] m.contains_key(k) implies res@.contains(m[k]) by {
                assert(m.values().contains(m[k]));
                assert(res@.to_set().contains(m[k]));
            }
        }
        res
    }

    /// Whether the orchestration is to be run now: not once it is complete,
    /// and an error when it was never left running.
    pub fn poll(&self) -> (res: Result<bool, ExecutorError>)
        ensures
            self@.is_complete ==> res == Ok::<bool, ExecutorError>(false),
            !self@.is_complete && self@.orchestrator_running ==> res == Ok::<bool, ExecutorError>(true),
            !self@.is_complete && !self@.orchestrator_running ==> res == Err::<bool, ExecutorError>(
                ExecutorError::PolledWithoutOrchestrator,
            ),
    {
        if self.is_complete {
            Ok(false)
        } else if self.orchestrator_running {
            Ok(true)
        } else {
            Err(ExecutorError::PolledWithoutOrchestrator)
        }
    }

    /// Records what the orchestration returned when a run finished it: the
    /// action that completes it, under the next sequence number.
    pub fn record_orchestrator_result(&mut self, result: OrchestratorResult<Vec<u8>>)
        requires
            old(self).wf(),
            old(self)@.sequence_number < i32::MAX,
            result matches Ok(OrchestratorResultValue::Output(o)) ==> valid_utf8(o@),
        ensures
            final(self).wf(),
            final(self)@ == (ExecutorView {
                sequence_number: (old(self)@.sequence_number + 1) as i32,
                pending_actions: old(self)@.pending_actions.insert(
                    (old(self)@.sequence_number + 1) as i32,
                    final(self)@.pending_actions[(old(self)@.sequence_number + 1) as i32],
                ),
                ..old(self)@
            }),
            completes_with(
                final(self)@.pending_actions[(old(self)@.sequence_number + 1) as i32],
                (old(self)@.sequence_number + 1) as i32,
                result,
            ),
    {
        let task_id = self.next_sequence_number();
        let action = match result {
            Ok(OrchestratorResultValue::ContinueAsNew) => new_complete_orchestration_action(
                task_id,
                OrchestrationStatus::ContinuedAsNew,
                None,
            ),
            Ok(OrchestratorResultValue::Output(output)) => {
                let text = match string_from_utf8(output) {
                    Ok(s) => s,
                    Err(_) => String::new(),
                };
                new_complete_orchestration_action(task_id, OrchestrationStatus::Completed, Some(text))
            },
            Err(_) => new_complete_orchestration_action(task_id, OrchestrationStatus::Failed, None),
        };
        self.pending_actions.insert(task_id, action);
    }

    /// Collects what the running orchestration sent: each action becomes
    /// pending under its id, and the sequence number follows the last action
    /// with a positive id; each task awaits its completion; each waiter
    /// joins the queue of its signal name.  Nothing is collected unless the
    /// orchestration is running.
    pub fn collect_sent(&mut self, octx: &mut OrchestratorContext)
        requires
            old(self).wf(),
        ensures
            final(self).wf(),
            !old(self)@.orchestrator_running ==> final(self)@ == old(self)@ && *final(octx) == *old(octx),
            old(self)@.orchestrator_running ==> {
                &&& collects(old(self)@, *old(octx), final(self)@)
                &&& final(octx).spec_sent_actions().len() == 0
                &&& final(octx).spec_sent_tasks().len() == 0
                &&& final(octx).spec_sent_waiters().len() == 0
                &&& final(octx).spec_sequence_number() == old(octx).spec_sequence_number()
                &&& final(octx).spec_instance_id() == old(octx).spec_instance_id()
                &&& final(octx).spec_input() == old(octx).spec_input()
            },
    {
        if !self.orchestrator_running {
            return;
        }
        let (actions, tasks, waiters) = octx.take_sent();
        let ghost pre = self@;
        let mut i: usize = 0;
        while i < actions.len()
            invariant
                self.wf(),
                i <= actions@.len(),
                self@ == (ExecutorView {
                    pending_actions: insert_actions(pre.pending_actions, actions@.take(i as int)),
                    sequence_number: sequence_after(pre.sequence_number, actions@.take(i as int)),
                    ..pre
                }),
            decreases actions@.len() - i,
        {
            let a = actions[i].clone();
            let id = a.id;
            proof {
                assert(actions@.take(i + 1).drop_last() =~= actions@.take(i as int));
            }
            self.pending_actions.insert(id, a);
            if id > 0 {
                self.sequence_number = id;
            }
            i = i + 1;
        }
        proof {
            assert(actions@.take(actions@.len() as int) =~= actions@);
        }
        let ghost mid = self@;
        proof {
            assert(tasks@.take(0) =~= Seq::<i32>::empty());
            assert(mid.pending_tasks.union(tasks@.take(0).to_set()) =~= mid.pending_tasks);
        }
        let mut j: usize = 0;
        while j < tasks.len()
            invariant
                self.wf(),
                j <= tasks@.len(),
                self@ == (ExecutorView {
                    pending_tasks: mid.pending_tasks.union(tasks@.take(j as int).to_set()),
                    ..mid
                }),
            decreases tasks@.len() - j,
        {
            let t = tasks[j];
            self.pending_tasks.insert(t);
            proof {
                assert(tasks@.take(j + 1) =~= tasks@.take(j as int).push(t));
                tasks@.take(j as int).lemma_push_to_set_commute(t);
                assert(self.pending_tasks@ =~= mid.pending_tasks.union(tasks@.take(j + 1).to_set()));
            }
            j = j + 1;
        }
        proof {
            assert(tasks@.take(tasks@.len() as int) =~= tasks@);
        }
        let ghost mid2 = self@;
        let ghost ws = waiters@.map_values(|w: (String, u64)| (w.0@, w.1));
        let mut k: usize = 0;
        while k < waiters.len()
            invariant
                self.wf(),
                mid2.orchestrator_running,
                k <= waiters@.len(),
                ws == waiters@.map_values(|w: (String, u64)| (w.0@, w.1)),
                self@ == (ExecutorView {
                    pending_events: add_waiters(mid2.pending_events, ws.take(k as int)),
                    ..mid2
                }),
            decreases waiters@.len() - k,
        {
            let name = waiters[k].0.clone();
            let w = waiters[k].1;
            proof {
                assert(ws.take(k + 1).drop_last() =~= ws.take(k as int));
                assert(ws.take(k + 1).last() == (name@, w));
            }
            self.pending_events.push_back(name, w);
            k = k + 1;
        }
        proof {
            assert(ws.take(ws.len() as int) =~= ws);
        }
    }
}

/// `m` with each action of `s` put under its id, in order.
pub open spec fn insert_actions(m: Map<i32, OrchestratorAction>, s: Seq<OrchestratorAction>) -> Map<i32, OrchestratorAction>
    decreases s.len(),
{
    if s.len() == 0 {
        m
    } else {
        insert_actions(m, s.drop_last()).insert(s.last().id, s.last())
    }
}

/// The sequence number after collecting `s`: the id of the last action with
/// a positive id, or `seq` where there is none.
pub open spec fn sequence_after(seq: i32, s: Seq<OrchestratorAction>) -> i32
    decreases s.len(),
{
    if s.len() == 0 {
        seq
    } else if s.last().id > 0 {
        s.last().id
    } else {
        sequence_after(seq, s.drop_last())
    }
}

/// `m` with each waiter of `s` appended to the queue of its name, in order.
pub open spec fn add_waiters(m: Map<Seq<char>, Seq<u64>>, s: Seq<(Seq<char>, u64)>) -> Map<Seq<char>, Seq<u64>>
    decreases s.len(),
{
    if s.len() == 0 {
        m
    } else {
        let w = s.last();
        let before = add_waiters(m, s.drop_last());
        before.insert(w.0, queue_of(before, w.0).push(w.1))
    }
}

/// `s` lists the actions of `m`, each once.
pub open spec fn lists_actions(m: Map<i32, OrchestratorAction>, s: Seq<OrchestratorAction>) -> bool {
    &&& s.len() == m.dom().len()
    &&& forall|i: int| 0 <= i < s.len() ==> #[trigger] m.contains_key(s[i].id) && m[s[i].id] == s[i]
    &&& forall|k: i32| #[trigger] m.contains_key(k) ==> s.contains(m[k])
}

/// Collecting what `octx` sent takes the executor from `pre` to `post`.
pub open spec fn collects(pre: ExecutorView, octx: OrchestratorContext, post: ExecutorView) -> bool {
    post == ExecutorView {
        pending_actions: insert_actions(pre.pending_actions, octx.spec_sent_actions()),
        sequence_number: sequence_after(pre.sequence_number, octx.spec_sent_actions()),
        pending_tasks: pre.pending_tasks.union(octx.spec_sent_tasks().to_set()),
        pending_events: add_waiters(pre.pending_events, octx.spec_sent_waiters()),
        ..pre
    }
}

/// `a` is the action that completes the orchestration, under `id`, with
/// what it returned.
pub open spec fn completes_with(a: OrchestratorAction, id: i32, result: OrchestratorResult<Vec<u8>>) -> bool {
    match result {
        Ok(OrchestratorResultValue::ContinueAsNew) => a == complete_action(id, OrchestrationStatus::ContinuedAsNew, None),
        Ok(OrchestratorResultValue::Output(o)) => exists|s: String|
            #![trigger complete_action(id, OrchestrationStatus::Completed, Some(s))]
            s@ == decode_utf8(o@) && a == complete_action(id, OrchestrationStatus::Completed, Some(s)),
        Err(_) => a == complete_action(id, OrchestrationStatus::Failed, None),
    }
}

} // verus!
