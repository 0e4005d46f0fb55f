//! The types an orchestration and its activities work with, and the
//! orchestration's own side of the replay: the context through which it
//! schedules work.
use std::sync::Arc;
use vstd::prelude::*;

use crate::history::{
    is_create_sub_orchestration, is_schedule_task, new_create_sub_orchestration_action,
    new_create_timer_action, new_schedule_task_action,
    OrchestratorAction, OrchestratorActionType, Timestamp,
};
use crate::queues::NamedQueues;
use crate::text::{lowercase, to_lowercase};

verus! {

/// The errors of an orchestration.
#[derive(Clone, Copy, Debug, PartialEq, Eq, Structural)]
pub enum Error {
    Serialization,
    Timeout,
    NonDeterminism,
}

/// What an orchestrator returns: either its output, or a request to start
/// over as new.
pub enum OrchestratorResultValue<T> {
    ContinueAsNew,
    Output(T),
}

impl<T> From<T> for OrchestratorResultValue<T> {
    /// An output value.
    fn from(v: T) -> (res: Self) {
        OrchestratorResultValue::Output(v)
    }
}

impl<T> vstd::std_specs::convert::FromSpecImpl<T> for OrchestratorResultValue<T> {
    open spec fn obeys_from_spec() -> bool {
        true
    }

    open spec fn from_spec(v: T) -> Self {
        OrchestratorResultValue::Output(v)
    }
}

/// How to call an activity.
pub struct ActivityOptions {
    pub activity_type: String,
}

/// How to call a sub-orchestrator.
pub struct SubOrchestratorOptions {
    pub orchestrator_type: String,
    pub instance_id: String,
}

/// The context an activity runs in.
pub struct ActivityContext<E> {
    orchestration_id: String,
    task_id: i32,
    environment: Arc<E>,
}

impl<E> ActivityContext<E> {
    /// The context of task `task_id` of orchestration `orchestration_id`.
    pub fn new(orchestration_id: String, task_id: i32, environment: Arc<E>) -> (res: Self)
        ensures
            res.orchestration_id() == orchestration_id,
            res.task_id() == task_id,
            res.environment_value() == *environment,
    {
        ActivityContext { orchestration_id, task_id, environment }
    }

    pub closed spec fn orchestration_id(&self) -> String {
        self.orchestration_id
    }

    pub closed spec fn task_id(&self) -> i32 {
        self.task_id
    }

    pub closed spec fn environment_value(&self) -> E {
        *self.environment
    }

    /// The environment the worker shares with its activities.
    pub fn environment(&self) -> (res: &E)
        ensures
            *res == self.environment_value(),
    {
        &*self.environment
    }
}

/// The input an activity is called with: its payload, or `"test"` where
/// there is none.
pub fn activity_input(input: Option<String>) -> (res: String)
    ensures
        input matches Some(s) ==> res == s,
        input is None ==> res@ == "test"@,
{
    match input {
        Some(s) => s,
        None => String::from_str("test"),
    }
}

/// The instant `millis` milliseconds after `now` can be written as a
/// timestamp.
pub open spec fn fits_after(now: Timestamp, millis: u64) -> bool {
    (now.total_nanos() + millis * 1_000_000) / 1_000_000_000 <= i64::MAX
}

/// The instant `millis` milliseconds after `now`.
pub fn timestamp_after(now: Timestamp, millis: u64) -> (res: Timestamp)
    requires
        now.normalized(),
        fits_after(now, millis),
    ensures
        res.normalized(),
        res.total_nanos() == now.total_nanos() + millis * 1_000_000,
{
    let whole: u64 = millis / 1000;
    let part: u64 = millis % 1000;
    let nanos: i64 = now.nanos as i64 + (part * 1_000_000) as i64;
    let carry: i64 = if nanos >= 1_000_000_000 { 1 } else { 0 };
    proof {
        assert(millis * 1_000_000 == whole * 1_000_000_000 + part * 1_000_000) by (nonlinear_arith)
            requires whole == millis / 1000, part == millis % 1000;
        assert(now.total_nanos() + millis * 1_000_000
            == (now.seconds + whole + carry) * 1_000_000_000 + (nanos - carry * 1_000_000_000)) by (nonlinear_arith)
            requires
                now.total_nanos() == now.seconds * 1_000_000_000 + now.nanos,
                millis * 1_000_000 == whole * 1_000_000_000 + part * 1_000_000,
                nanos == now.nanos + part * 1_000_000;
        assert((now.total_nanos() + millis * 1_000_000) / 1_000_000_000 == now.seconds + whole + carry) by (nonlinear_arith)
            requires
                now.total_nanos() + millis * 1_000_000
                    == (now.seconds + whole + carry) * 1_000_000_000 + (nanos - carry * 1_000_000_000),
                0 <= nanos - carry * 1_000_000_000 < 1_000_000_000;
    }
    let seconds: i64 = now.seconds + whole as i64 + carry;
    Timestamp { seconds, nanos: (nanos - carry * 1_000_000_000) as i32 }
}


/// What awaiting a signal event gives right away.
pub enum SignalWait {
    /// A matching event had already been raised; this is its input.
    Received(String),
    /// No matching event yet: the waiter has been handed to the executor.
    Waiting,
}

/// The orchestration's side of a replay: it numbers the actions the
/// orchestration takes and holds them, with the tasks and the signal waiters
/// they create, until the executor collects them.
pub struct OrchestratorContext {
    instance_id: String,
    input: Option<String>,
    sequence_number: i32,
    sent_actions: Vec<OrchestratorAction>,
    sent_tasks: Vec<i32>,
    sent_waiters: Vec<(String, u64)>,
}

impl OrchestratorContext {
    pub closed spec fn spec_instance_id(&self) -> String {
        self.instance_id
    }

    pub closed spec fn spec_input(&self) -> Option<String> {
        self.input
    }

    /// The sequence number of the last action taken.
    pub closed spec fn spec_sequence_number(&self) -> i32 {
        self.sequence_number
    }

    /// The actions taken and not yet collected, oldest first.
    pub closed spec fn spec_sent_actions(&self) -> Seq<OrchestratorAction> {
        self.sent_actions@
    }

    /// The tasks created and not yet collected, oldest first.
    pub closed spec fn spec_sent_tasks(&self) -> Seq<i32> {
        self.sent_tasks@
    }

    /// The signal waiters (event name, waiter) not yet collected, oldest first.
    pub closed spec fn spec_sent_waiters(&self) -> Seq<(Seq<char>, u64)> {
        self.sent_waiters@.map_values(|w: (String, u64)| (w.0@, w.1))
    }

    /// A fresh context for the orchestration `instance_id` started with `input`.
    pub fn new(instance_id: String, input: Option<String>) -> (res: Self)
        ensures
            res.spec_instance_id() == instance_id,
            res.spec_input() == input,
            res.spec_sequence_number() == 0,
            res.spec_sent_actions().len() == 0,
            res.spec_sent_tasks().len() == 0,
            res.spec_sent_waiters().len() == 0,
    {
        OrchestratorContext {
            instance_id,
            input,
            sequence_number: 0,
            sent_actions: Vec::new(),
            sent_tasks: Vec::new(),
            sent_waiters: Vec::new(),
        }
    }

    /// The orchestration's instance id.
    pub fn instance_id(&self) -> (res: String)
        ensures
            res == self.spec_instance_id(),
    {
        self.instance_id.clone()
    }

    /// The sequence number of the last action taken.
    pub fn sequence_number(&self) -> (res: i32)
        ensures
            res == self.spec_sequence_number(),
    {
        self.sequence_number
    }

    /// The orchestration's input payload.
    pub fn input(&self) -> (res: Option<String>)
        ensures
            res == self.spec_input(),
    {
        crate::history::copy_opt_string(&self.input)
    }

    fn next_sequence_number(&mut self) -> (res: i32)
        requires
            old(self).spec_sequence_number() < i32::MAX,
        ensures
            res == old(self).spec_sequence_number() + 1,
            final(self).spec_sequence_number() == res,
            final(self).spec_instance_id() == old(self).spec_instance_id(),
            final(self).spec_input() == old(self).spec_input(),
            final(self).spec_sent_actions() == old(self).spec_sent_actions(),
            final(self).spec_sent_tasks() == old(self).spec_sent_tasks(),
            final(self).spec_sent_waiters() == old(self).spec_sent_waiters(),
    {
        self.sequence_number = self.sequence_number + 1;
        self.sequence_number
    }

    /// Takes the next sequence number for `action`, and sends the action
    /// and a task awaiting its completion.
    pub open spec fn schedules(self, post: Self, id: i32, action: OrchestratorAction) -> bool {
        &&& id == self.spec_sequence_number() + 1
        &&& action.id == id
        &&& post.spec_sequence_number() == id
        &&& post.spec_sent_actions() == self.spec_sent_actions().push(action)
        &&& post.spec_sent_tasks() == self.spec_sent_tasks().push(id)
        &&& post.spec_sent_waiters() == self.spec_sent_waiters()
        &&& post.spec_instance_id() == self.spec_instance_id()
        &&& post.spec_input() == self.spec_input()
    }

    /// Creates a timer that fires `fire_after_millis` milliseconds after `now`;
    /// returns the id of the task that the timer completes.
    pub fn create_timer(&mut self, fire_after_millis: u64, now: Timestamp) -> (res: i32)
        requires
            old(self).spec_sequence_number() < i32::MAX,
            now.normalized(),
            fits_after(now, fire_after_millis),
        ensures
            exists|fire_at: Timestamp|
                #![trigger fire_at.total_nanos()]
                fire_at.normalized() && fire_at.total_nanos() == now.total_nanos() + fire_after_millis * 1_000_000
                    && old(self).schedules(*final(self), res, OrchestratorAction {
                    id: res,
                    action_type: OrchestratorActionType::CreateTimer { fire_at },
                }),
    {
        let id = self.next_sequence_number();
        let fire_at = timestamp_after(now, fire_after_millis);
        let action = new_create_timer_action(id, fire_at);
        self.sent_actions.push(action);
        self.sent_tasks.push(id);
        id
    }

    /// Schedules the activity `name`; returns the id of its task.
    pub fn schedule_activity(&mut self, name: &str, input: Option<String>) -> (res: i32)
        requires
            old(self).spec_sequence_number() < i32::MAX,
        ensures
            exists|a: OrchestratorAction|
                #![trigger old(self).schedules(*final(self), res, a)]
                old(self).schedules(*final(self), res, a) && is_schedule_task(a, name@, input),
    {
        let id = self.next_sequence_number();
        let action = new_schedule_task_action(id, name, input);
        let ghost a = action;
        self.sent_actions.push(action);
        self.sent_tasks.push(id);
        proof {
            assert(old(self).schedules(*self, id, a));
        }
        id
    }

    /// Schedules the sub-orchestration `name` as instance `instance_id`;
    /// returns the id of its task.
    pub fn schedule_sub_orchestrator(&mut self, name: &str, instance_id: &str, input: Option<String>) -> (res: i32)
        requires
            old(self).spec_sequence_number() < i32::MAX,
        ensures
            exists|a: OrchestratorAction|
                #![trigger old(self).schedules(*final(self), res, a)]
                old(self).schedules(*final(self), res, a) && is_create_sub_orchestration(a, name@, instance_id@, input),
    {
        let id = self.next_sequence_number();
        let action = new_create_sub_orchestration_action(id, name, instance_id, input);
        let ghost a = action;
        self.sent_actions.push(action);
        self.sent_tasks.push(id);
        proof {
            assert(old(self).schedules(*self, id, a));
        }
        id
    }

    /// Calls an activity with the serialized `input`: of type
    /// `options.activity_type`, or `default_type` where that is empty.
    pub fn call_activity(&mut self, options: ActivityOptions, input: String, default_type: String) -> (res: i32)
        requires
            old(self).spec_sequence_number() < i32::MAX,
        ensures
            exists|a: OrchestratorAction|
                #![trigger old(self).schedules(*final(self), res, a)]
                old(self).schedules(*final(self), res, a) && is_schedule_task(
                    a,
                    if options.activity_type@.len() == 0 { default_type@ } else { options.activity_type@ },
                    Some(input),
                ),
    {
        let activity_type = if options.activity_type.as_str().is_empty() { default_type } else { options.activity_type };
        self.schedule_activity(activity_type.as_str(), Some(input))
    }

    /// Calls a sub-orchestrator with the serialized `input`: of type
    /// `options.orchestrator_type`, or `default_type` where that is empty.
    pub fn call_sub_orchestrator(&mut self, options: SubOrchestratorOptions, input: String, default_type: String) -> (res: i32)
        requires
            old(self).spec_sequence_number() < i32::MAX,
        ensures
            exists|a: OrchestratorAction|
                #![trigger old(self).schedules(*final(self), res, a)]
                old(self).schedules(*final(self), res, a) && is_create_sub_orchestration(
                    a,
                    if options.orchestrator_type@.len() == 0 { default_type@ } else { options.orchestrator_type@ },
                    options.instance_id@,
                    Some(input),
                ),
    {
        let orchestrator_type = if options.orchestrator_type.as_str().is_empty() {
            default_type
        } else {
            options.orchestrator_type
        };
        self.schedule_sub_orchestrator(orchestrator_type.as_str(), options.instance_id.as_str(), Some(input))
    }

    /// Hands over what the orchestration sent since the last call (actions,
    /// tasks, signal waiters, each oldest first) and keeps nothing of it.
    pub fn take_sent(&mut self) -> (res: (Vec<OrchestratorAction>, Vec<i32>, Vec<(String, u64)>))
        ensures
            res.0@ == old(self).spec_sent_actions(),
            res.1@ == old(self).spec_sent_tasks(),
            res.2@.map_values(|w: (String, u64)| (w.0@, w.1)) == old(self).spec_sent_waiters(),
            final(self).spec_sent_actions().len() == 0,
            final(self).spec_sent_tasks().len() == 0,
            final(self).spec_sent_waiters().len() == 0,
            final(self).spec_sequence_number() == old(self).spec_sequence_number(),
            final(self).spec_instance_id() == old(self).spec_instance_id(),
            final(self).spec_input() == old(self).spec_input(),
    {
        let mut actions: Vec<OrchestratorAction> = Vec::new();
        let mut tasks: Vec<i32> = Vec::new();
        let mut waiters: Vec<(String, u64)> = Vec::new();
        std::mem::swap(&mut actions, &mut self.sent_actions);
        std::mem::swap(&mut tasks, &mut self.sent_tasks);
        std::mem::swap(&mut waiters, &mut self.sent_waiters);
        proof {
            assert(self.spec_sent_waiters() =~= Seq::<(Seq<char>, u64)>::empty());
        }
        (actions, tasks, waiters)
    }

    /// Awaits the signal event `name` (compared in lowercase): takes the
    /// input of the oldest such event already raised, or else hands `waiter`
    /// to the executor, which gives it the next one.  A buffered event
    /// without input cannot be awaited.
    pub fn await_signal_event(
        &mut self,
        received_events: &mut NamedQueues<Option<String>>,
        name: &str,
        waiter: u64,
    ) -> (res: SignalWait)
        requires
            old(received_events).wf(),
            signal_has_input(old(received_events).view(), lowercase(name@)),
        ensures
            final(received_events).wf(),
            awaits_signal(
                *old(self),
                *final(self),
                old(received_events).view(),
                final(received_events).view(),
                lowercase(name@),
                waiter,
                res,
            ),
    {
        let key = to_lowercase(name);
        if received_events.contains_key(&key) {
            let event = received_events.pop_front(&key);
            match event {
                Some(Some(input)) => SignalWait::Received(input),
                _ => SignalWait::Waiting,
            }
        } else {
            let ghost k = key@;
            self.sent_waiters.push((key, waiter));
            proof {
                assert(self.spec_sent_waiters() =~= old(self).spec_sent_waiters().push((k, waiter)));
            }
            SignalWait::Waiting
        }
    }

    /// Awaits the signal event `name` as `await_signal_event` does, where
    /// the oldest buffered event under that name has an input; where it has
    /// none, changes nothing and gives `None`.
    pub fn checked_await_signal_event(
        &mut self,
        received_events: &mut NamedQueues<Option<String>>,
        name: &str,
        waiter: u64,
    ) -> (res: Option<SignalWait>)
        requires
            old(received_events).wf(),
        ensures
            final(received_events).wf(),
            res is None <==> !signal_has_input(old(received_events).view(), lowercase(name@)),
            res is None ==> *final(self) == *old(self) && final(received_events).view() == old(
                received_events,
            ).view(),
            res matches Some(w) ==> awaits_signal(
                *old(self),
                *final(self),
                old(received_events).view(),
                final(received_events).view(),
                lowercase(name@),
                waiter,
                w,
            ),
    {
        let key = to_lowercase(name);
        let has_input = match received_events.front(&key) {
            Some(front) => front.is_some(),
            None => true,
        };
        if has_input {
            Some(self.await_signal_event(received_events, name, waiter))
        } else {
            None
        }
    }
}

/// The oldest signal buffered under `key`, if any, has an input.
pub open spec fn signal_has_input(received: Map<Seq<char>, Seq<Option<String>>>, key: Seq<char>) -> bool {
    received.contains_key(key) ==> received[key][0] is Some
}

/// Awaiting the signal `key` with `waiter` takes the orchestration from `pre`
/// to `post` and the buffer from `pre_r` to `post_r`, giving `res`.
pub open spec fn awaits_signal(
    pre: OrchestratorContext,
    post: OrchestratorContext,
    pre_r: Map<Seq<char>, Seq<Option<String>>>,
    post_r: Map<Seq<char>, Seq<Option<String>>>,
    key: Seq<char>,
    waiter: u64,
    res: SignalWait,
) -> bool {
    &&& takes_signal(pre_r, post_r, key, res)
    &&& res is Received ==> post == pre
    &&& res is Waiting ==> {
        &&& post.spec_sent_waiters() == pre.spec_sent_waiters().push((key, waiter))
        &&& post.spec_sent_actions() == pre.spec_sent_actions()
        &&& post.spec_sent_tasks() == pre.spec_sent_tasks()
        &&& post.spec_sequence_number() == pre.spec_sequence_number()
        &&& post.spec_instance_id() == pre.spec_instance_id()
        &&& post.spec_input() == pre.spec_input()
    }
}

/// The orchestration's outcome when it failed.
pub struct OrchestratorFailure {
    pub message: String,
}

/// What an orchestrator run ends with.
pub type OrchestratorResult<T> = Result<OrchestratorResultValue<T>, OrchestratorFailure>;

/// Awaiting the signal `key` takes the oldest input buffered for it, when
/// there is one, and leaves the buffer unchanged otherwise.
pub open spec fn takes_signal(
    pre: Map<Seq<char>, Seq<Option<String>>>,
    post: Map<Seq<char>, Seq<Option<String>>>,
    key: Seq<char>,
    res: SignalWait,
) -> bool {
    if pre.contains_key(key) {
        &&& pre[key][0] matches Some(input) && res == SignalWait::Received(input)
        &&& post == (if pre[key].len() == 1 { pre.remove(key) } else { pre.insert(key, pre[key].drop_first()) })
    } else {
        res is Waiting && post == pre
    }
}

} // verus!
