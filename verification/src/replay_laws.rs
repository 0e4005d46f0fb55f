//! What each kind of history event does to a replay, and what collecting an
//! orchestration's sends does, stated by their outcomes.
use vstd::prelude::*;

use crate::executor::{
    add_waiters, collects, completes_with, insert_actions, processes_event, sequence_after, EventDirective,
    ExecutorView, TaskRelease,
};
use crate::history::{
    EventType, FailureDetails, HistoryEvent, OrchestrationStatus, OrchestratorAction, OrchestratorActionType, Timestamp,
};
use crate::queues::queue_of;
use crate::registry::Registry;
use crate::text::lowercase;
use crate::types::{awaits_signal, OrchestratorContext, OrchestratorResultValue, OrchestratorResult, SignalWait};
use vstd::utf8::decode_utf8;

verus! {

/// The state after releasing task `id` from `pre`: only the pending tasks
/// change, and `id` is no longer among them.
pub open spec fn without_task(pre: ExecutorView, id: i32) -> ExecutorView {
    ExecutorView { pending_tasks: pre.pending_tasks.remove(id), ..pre }
}

/// The release of task `id` with `value`, if the task was pending.
pub open spec fn release_of(pre: ExecutorView, id: i32, value: Option<String>) -> Option<TaskRelease> {
    if pre.pending_tasks.contains(id) {
        Some(TaskRelease { task_id: id, value })
    } else {
        None
    }
}

/// A completed activity resumes its task with the result and runs the
/// orchestration afterwards; the task stops being pending.
pub proof fn law_task_completion_resumes_and_runs(
    pre: ExecutorView,
    received: Map<Seq<char>, Seq<Option<String>>>,
    event: HistoryEvent,
    post: ExecutorView,
    post_received: Map<Seq<char>, Seq<Option<String>>>,
    d: EventDirective,
    id: i32,
    result: Option<String>,
)
    requires
        event.event_type == Some(EventType::TaskCompleted { task_scheduled_id: id, result }),
        processes_event(pre, received, event, post, post_received, d),
    ensures
        d == (EventDirective::ReleaseTask { release: release_of(pre, id, result), poll: true }),
        post == without_task(pre, id),
        !post.pending_tasks.contains(id),
        post_received == received,
{
    if !pre.pending_tasks.contains(id) {
        assert(pre.pending_tasks.remove(id) =~= pre.pending_tasks);
    }
}

/// A completed sub-orchestration resumes its task in the parent with the
/// child's result and runs the parent afterwards, as a completed activity
/// does; the task stops being pending.
pub proof fn law_sub_orchestration_completion_resumes_and_runs(
    pre: ExecutorView,
    received: Map<Seq<char>, Seq<Option<String>>>,
    event: HistoryEvent,
    post: ExecutorView,
    post_received: Map<Seq<char>, Seq<Option<String>>>,
    d: EventDirective,
    id: i32,
    result: Option<String>,
)
    requires
        event.event_type == Some(EventType::SubOrchestrationInstanceCompleted { task_scheduled_id: id, result }),
        processes_event(pre, received, event, post, post_received, d),
    ensures
        d == (EventDirective::ReleaseTask { release: release_of(pre, id, result), poll: true }),
        post == without_task(pre, id),
        !post.pending_tasks.contains(id),
        post_received == received,
{
    if !pre.pending_tasks.contains(id) {
        assert(pre.pending_tasks.remove(id) =~= pre.pending_tasks);
    }
}

/// The error message of a failure, when it has details.
pub open spec fn message_of(failure_details: Option<FailureDetails>) -> Option<String> {
    match failure_details {
        Some(f) => Some(f.error_message),
        None => None,
    }
}

/// A failed activity hands its task the error message (nothing where the
/// failure has no details) and does not run the orchestration.
pub proof fn law_activity_failure_releases_without_run(
    pre: ExecutorView,
    received: Map<Seq<char>, Seq<Option<String>>>,
    event: HistoryEvent,
    post: ExecutorView,
    post_received: Map<Seq<char>, Seq<Option<String>>>,
    d: EventDirective,
    id: i32,
    failure_details: Option<FailureDetails>,
)
    requires
        event.event_type == Some(EventType::TaskFailed { task_scheduled_id: id, failure_details }),
        processes_event(pre, received, event, post, post_received, d),
    ensures
        d == (EventDirective::ReleaseTask { release: release_of(pre, id, message_of(failure_details)), poll: false }),
        post == without_task(pre, id),
        post_received == received,
{
    if !pre.pending_tasks.contains(id) {
        assert(pre.pending_tasks.remove(id) =~= pre.pending_tasks);
    }
}

/// A failed sub-orchestration hands its task in the parent the error
/// message and runs the parent afterwards.
pub proof fn law_sub_orchestration_failure_releases_and_runs(
    pre: ExecutorView,
    received: Map<Seq<char>, Seq<Option<String>>>,
    event: HistoryEvent,
    post: ExecutorView,
    post_received: Map<Seq<char>, Seq<Option<String>>>,
    d: EventDirective,
    id: i32,
    failure_details: Option<FailureDetails>,
)
    requires
        event.event_type == Some(EventType::SubOrchestrationInstanceFailed { task_scheduled_id: id, failure_details }),
        processes_event(pre, received, event, post, post_received, d),
    ensures
        d == (EventDirective::ReleaseTask { release: release_of(pre, id, message_of(failure_details)), poll: true }),
        post == without_task(pre, id),
        post_received == received,
{
    if !pre.pending_tasks.contains(id) {
        assert(pre.pending_tasks.remove(id) =~= pre.pending_tasks);
    }
}

/// A fired timer resumes its task with empty text (nothing where the event
/// has no firing time) and runs the orchestration afterwards.
pub proof fn law_fired_timer_resumes_and_runs(
    pre: ExecutorView,
    received: Map<Seq<char>, Seq<Option<String>>>,
    event: HistoryEvent,
    post: ExecutorView,
    post_received: Map<Seq<char>, Seq<Option<String>>>,
    d: EventDirective,
    id: i32,
    fire_at: Option<Timestamp>,
)
    requires
        event.event_type == Some(EventType::TimerFired { timer_id: id, fire_at }),
        processes_event(pre, received, event, post, post_received, d),
    ensures
        d matches EventDirective::ReleaseTask { release, poll } && poll && (pre.pending_tasks.contains(id)
            <==> release is Some),
        d matches EventDirective::ReleaseTask { release: Some(r), .. } ==> r.task_id == id && (r.value is Some
            <==> fire_at is Some),
        d matches EventDirective::ReleaseTask { release: Some(TaskRelease { value: Some(v), .. }), .. } ==> v@
            == Seq::<char>::empty(),
        post == without_task(pre, id),
        post_received == received,
{
    if !pre.pending_tasks.contains(id) {
        assert(pre.pending_tasks.remove(id) =~= pre.pending_tasks);
    }
}

/// Events that only close an episode or record what the task hub did
/// (orchestrator completed, event sent, generic event, history state,
/// continue-as-new, suspension and resumption), and events without a type,
/// change nothing and ask for nothing.
pub proof fn law_bookkeeping_events_change_nothing(
    pre: ExecutorView,
    received: Map<Seq<char>, Seq<Option<String>>>,
    event: HistoryEvent,
    post: ExecutorView,
    post_received: Map<Seq<char>, Seq<Option<String>>>,
    d: EventDirective,
)
    requires
        match event.event_type {
            None => true,
            Some(t) => t is OrchestratorCompleted || t is EventSent || t is GenericEvent || t is HistoryState
                || t is ContinueAsNew || t is ExecutionSuspended || t is ExecutionResumed,
        },
        processes_event(pre, received, event, post, post_received, d),
    ensures
        post == pre,
        post.is_complete == pre.is_complete,
        post_received == received,
        d is Nothing,
{
}

/// The orchestrator to start is the one the event names, exactly as it
/// names it, with the event's input; nothing else changes.
pub proof fn law_start_names_the_event_orchestrator(
    pre: ExecutorView,
    received: Map<Seq<char>, Seq<Option<String>>>,
    event: HistoryEvent,
    post: ExecutorView,
    post_received: Map<Seq<char>, Seq<Option<String>>>,
    d: EventDirective,
    name: String,
    input: Option<String>,
)
    requires
        event.event_type == Some(EventType::ExecutionStarted { name, input }),
        processes_event(pre, received, event, post, post_received, d),
    ensures
        d == (EventDirective::StartOrchestrator { name, input }),
        post == pre,
        post_received == received,
{
}

/// An orchestrator registered under a name is found by the start of an
/// execution that names it.
pub proof fn law_started_orchestrator_is_found(
    r0: Registry,
    r1: Registry,
    slot: usize,
    pre: ExecutorView,
    received: Map<Seq<char>, Seq<Option<String>>>,
    event: HistoryEvent,
    post: ExecutorView,
    post_received: Map<Seq<char>, Seq<Option<String>>>,
    d: EventDirective,
)
    requires
        (event.event_type matches Some(EventType::ExecutionStarted { name, .. })
            && r1.orchestrators() == r0.orchestrators().insert(name@, slot)),
        processes_event(pre, received, event, post, post_received, d),
    ensures
        d matches EventDirective::StartOrchestrator { name, .. } && r1.orchestrators().get(name@) == Some(slot),
{
}

/// The start of a run sets the executor's clock to the event's time, when
/// it has one; nothing else changes.
pub proof fn law_orchestrator_started_sets_clock(
    pre: ExecutorView,
    received: Map<Seq<char>, Seq<Option<String>>>,
    event: HistoryEvent,
    post: ExecutorView,
    post_received: Map<Seq<char>, Seq<Option<String>>>,
    d: EventDirective,
)
    requires
        event.event_type == Some(EventType::OrchestratorStarted),
        processes_event(pre, received, event, post, post_received, d),
    ensures
        post.current_time_utc == (match event.timestamp {
            Some(ts) => ts,
            None => pre.current_time_utc,
        }),
        post == (ExecutorView { current_time_utc: post.current_time_utc, ..pre }),
        post_received == received,
        d is Nothing,
{
}

/// The end of an execution runs the orchestration (and disregards what it
/// returns) exactly when one is running; nothing changes.
pub proof fn law_execution_completed_runs_a_running_orchestration(
    pre: ExecutorView,
    received: Map<Seq<char>, Seq<Option<String>>>,
    event: HistoryEvent,
    post: ExecutorView,
    post_received: Map<Seq<char>, Seq<Option<String>>>,
    d: EventDirective,
)
    requires
        (event.event_type matches Some(t) && t is ExecutionCompleted),
        processes_event(pre, received, event, post, post_received, d),
    ensures
        d is PollIgnoringResult <==> pre.orchestrator_running,
        d is Nothing <==> !pre.orchestrator_running,
        post == pre,
        post_received == received,
{
}

/// A history event that confirms a scheduled task, timer or
/// sub-orchestration drops the pending action under its id, and nothing
/// else.
pub proof fn law_confirmation_drops_the_action(
    pre: ExecutorView,
    received: Map<Seq<char>, Seq<Option<String>>>,
    event: HistoryEvent,
    post: ExecutorView,
    post_received: Map<Seq<char>, Seq<Option<String>>>,
    d: EventDirective,
)
    requires
        (event.event_type matches Some(t) && (t is TaskScheduled || t is TimerCreated
            || t is SubOrchestrationInstanceCreated)),
        processes_event(pre, received, event, post, post_received, d),
    ensures
        !post.pending_actions.contains_key(event.event_id),
        forall|k: i32| k != event.event_id ==> #[trigger] post.pending_actions.get(k) == pre.pending_actions.get(k),
        post == (ExecutorView { pending_actions: post.pending_actions, ..pre }),
        post_received == received,
        d is Nothing,
{
}

/// A raised signal goes to the oldest waiter for its lowercase name, which
/// stops waiting, and the orchestration is then run with its input; with
/// no waiter it is kept, after those buffered before it, for the next
/// await.  Nothing else changes.
pub proof fn law_raised_signal_goes_to_oldest_waiter_or_buffer(
    pre: ExecutorView,
    received: Map<Seq<char>, Seq<Option<String>>>,
    event: HistoryEvent,
    post: ExecutorView,
    post_received: Map<Seq<char>, Seq<Option<String>>>,
    d: EventDirective,
    name: String,
    input: Option<String>,
)
    requires
        event.event_type == Some(EventType::EventRaised { name, input }),
        processes_event(pre, received, event, post, post_received, d),
    ensures
        pre.pending_events.contains_key(lowercase(name@)) ==> {
            &&& d == (EventDirective::ResumeWaiter { waiter: pre.pending_events[lowercase(name@)][0], input })
            &&& pre.pending_events[lowercase(name@)].len() > 0 ==> queue_of(post.pending_events, lowercase(name@))
                == pre.pending_events[lowercase(name@)].drop_first()
            &&& post_received == received
        },
        !pre.pending_events.contains_key(lowercase(name@)) ==> {
            &&& d is Nothing
            &&& post.pending_events == pre.pending_events
            &&& queue_of(post_received, lowercase(name@)) == queue_of(received, lowercase(name@)).push(input)
            &&& forall|k: Seq<char>| k != lowercase(name@) ==> #[trigger] post_received.get(k) == received.get(k)
        },
        forall|k: Seq<char>| k != lowercase(name@) ==> #[trigger] post.pending_events.get(k) == pre.pending_events.get(k),
        post == (ExecutorView { pending_events: post.pending_events, ..pre }),
{
    let key = lowercase(name@);
    if pre.pending_events.contains_key(key) {
        let q = pre.pending_events[key];
        if q.len() == 1 {
            assert(q.drop_first() =~= Seq::<u64>::empty());
        }
    } else {
        assert forall|k: Seq<char>| k != key implies #[trigger] post_received.get(k) == received.get(k) by {}
    }
}

/// The waiters of one name that a sequence of sends holds, oldest first.
pub open spec fn waiters_named(ws: Seq<(Seq<char>, u64)>, k: Seq<char>) -> Seq<u64> {
    ws.filter(|w: (Seq<char>, u64)| w.0 == k).map_values(|w: (Seq<char>, u64)| w.1)
}

/// Adding waiters appends, to the queue of each name, the waiters sent under
/// that name, in order.
pub proof fn lemma_add_waiters_appends(m: Map<Seq<char>, Seq<u64>>, ws: Seq<(Seq<char>, u64)>, k: Seq<char>)
    ensures
        queue_of(add_waiters(m, ws), k) == queue_of(m, k) + waiters_named(ws, k),
    decreases ws.len(),
{
    reveal(Seq::filter);
    if ws.len() == 0 {
        assert(waiters_named(ws, k) =~= Seq::<u64>::empty());
        assert(queue_of(m, k) + Seq::<u64>::empty() =~= queue_of(m, k));
    } else {
        lemma_add_waiters_appends(m, ws.drop_last(), k);
        let w = ws.last();
        let pred = |w: (Seq<char>, u64)| w.0 == k;
        let f = |w: (Seq<char>, u64)| w.1;
        let before = ws.drop_last().filter(pred);
        if w.0 == k {
            assert(ws.filter(pred) == before.push(w));
            assert(before.push(w).map_values(f) =~= before.map_values(f).push(w.1));
            assert(queue_of(m, k) + before.map_values(f).push(w.1) =~= (queue_of(m, k) + before.map_values(f)).push(
                w.1,
            ));
        } else {
            assert(ws.filter(pred) == before);
        }
    }
}

/// Collecting keeps every pending task and adds the tasks sent: a task
/// pending before is pending after, whatever was sent.
pub proof fn law_collecting_keeps_pending_tasks(pre: ExecutorView, octx: OrchestratorContext, post: ExecutorView)
    requires
        collects(pre, octx, post),
    ensures
        forall|t: i32| #[trigger] post.pending_tasks.contains(t) <==> (pre.pending_tasks.contains(t)
            || octx.spec_sent_tasks().contains(t)),
        pre.pending_tasks.subset_of(post.pending_tasks),
        octx.spec_sent_tasks().len() == 0 ==> post.pending_tasks == pre.pending_tasks,
{
    assert forall|t: i32| #[trigger] post.pending_tasks.contains(t) <==> (pre.pending_tasks.contains(t)
        || octx.spec_sent_tasks().contains(t)) by {
        if octx.spec_sent_tasks().contains(t) {
            assert(octx.spec_sent_tasks().to_set().contains(t));
        }
    }
    if octx.spec_sent_tasks().len() == 0 {
        assert(post.pending_tasks =~= pre.pending_tasks);
    }
}

/// Collecting keeps the queued waiters: each name's queue afterwards is its
/// queue before followed by the waiters sent under that name, in the order
/// sent; with nothing sent the waiters stay as they were.
pub proof fn law_collecting_keeps_waiters(pre: ExecutorView, octx: OrchestratorContext, post: ExecutorView)
    requires
        collects(pre, octx, post),
    ensures
        forall|k: Seq<char>| #[trigger] queue_of(post.pending_events, k) == queue_of(pre.pending_events, k)
            + waiters_named(octx.spec_sent_waiters(), k),
        forall|k: Seq<char>| #[trigger] queue_of(pre.pending_events, k).is_prefix_of(queue_of(post.pending_events, k)),
        octx.spec_sent_waiters().len() == 0 ==> post.pending_events == pre.pending_events,
{
    assert forall|k: Seq<char>| #[trigger] queue_of(post.pending_events, k) == queue_of(pre.pending_events, k)
        + waiters_named(octx.spec_sent_waiters(), k) by {
        lemma_add_waiters_appends(pre.pending_events, octx.spec_sent_waiters(), k);
    }
    assert forall|k: Seq<char>| #[trigger] queue_of(pre.pending_events, k).is_prefix_of(
        queue_of(post.pending_events, k),
    ) by {
        lemma_add_waiters_appends(pre.pending_events, octx.spec_sent_waiters(), k);
        let a = queue_of(pre.pending_events, k);
        let b = waiters_named(octx.spec_sent_waiters(), k);
        assert((a + b).subrange(0, a.len() as int) =~= a);
    }
}

/// Collecting touches only the pending actions, the sequence number, the
/// pending tasks and the waiters; with nothing sent it changes nothing.
pub proof fn law_collecting_nothing_changes_nothing(pre: ExecutorView, octx: OrchestratorContext, post: ExecutorView)
    requires
        collects(pre, octx, post),
    ensures
        post == (ExecutorView {
            pending_actions: post.pending_actions,
            sequence_number: post.sequence_number,
            pending_tasks: post.pending_tasks,
            pending_events: post.pending_events,
            ..pre
        }),
        octx.spec_sent_actions().len() == 0 && octx.spec_sent_tasks().len() == 0 && octx.spec_sent_waiters().len()
            == 0 ==> post == pre,
{
    if octx.spec_sent_actions().len() == 0 && octx.spec_sent_tasks().len() == 0 && octx.spec_sent_waiters().len()
        == 0 {
        assert(post.pending_tasks =~= pre.pending_tasks);
    }
}

/// Some action of `s` carries the id `k`.
pub open spec fn sends_id(s: Seq<OrchestratorAction>, k: i32) -> bool {
    exists|j: int| 0 <= j < s.len() && #[trigger] s[j].id == k
}

proof fn lemma_insert_actions_domain(m: Map<i32, OrchestratorAction>, s: Seq<OrchestratorAction>, k: i32)
    ensures
        insert_actions(m, s).contains_key(k) <==> (m.contains_key(k) || sends_id(s, k)),
        !sends_id(s, k) && m.contains_key(k) ==> insert_actions(m, s)[k] == m[k],
    decreases s.len(),
{
    if s.len() > 0 {
        lemma_insert_actions_domain(m, s.drop_last(), k);
        if sends_id(s.drop_last(), k) {
            let j = choose|j: int| 0 <= j < s.drop_last().len() && #[trigger] s.drop_last()[j].id == k;
            assert(s[j].id == k);
        }
        if sends_id(s, k) && s.last().id != k {
            let j = choose|j: int| 0 <= j < s.len() && #[trigger] s[j].id == k;
            assert(s.drop_last()[j].id == k);
        }
    }
}

proof fn lemma_sequence_after(seq: i32, s: Seq<OrchestratorAction>)
    ensures
        (forall|j: int| 0 <= j < s.len() ==> #[trigger] s[j].id <= 0) ==> sequence_after(seq, s) == seq,
        s.len() > 0 && s.last().id > 0 ==> sequence_after(seq, s) == s.last().id,
        sequence_after(seq, s) == seq || exists|j: int| 0 <= j < s.len() && #[trigger] s[j].id == sequence_after(seq, s)
            && s[j].id > 0,
    decreases s.len(),
{
    if s.len() > 0 {
        lemma_sequence_after(seq, s.drop_last());
        if forall|j: int| 0 <= j < s.len() ==> #[trigger] s[j].id <= 0 {
            assert forall|j: int| 0 <= j < s.drop_last().len() implies #[trigger] s.drop_last()[j].id <= 0 by {
                assert(s[j].id <= 0);
            }
            assert(s[s.len() - 1].id <= 0);
        }
        if s.last().id <= 0 && sequence_after(seq, s.drop_last()) != seq {
            let j = choose|j: int| 0 <= j < s.drop_last().len() && #[trigger] s.drop_last()[j].id
                == sequence_after(seq, s.drop_last()) && s.drop_last()[j].id > 0;
            assert(s[j].id == sequence_after(seq, s));
        }
        if s.last().id > 0 {
            assert(s[s.len() - 1].id == sequence_after(seq, s));
        }
    }
}

/// Collecting makes pending exactly the actions pending before and those
/// sent, and keeps what it was not sent; the sequence number stays where no
/// sent action has a positive id, and is otherwise the id of a sent action.
pub proof fn law_collecting_adds_sent_actions(pre: ExecutorView, octx: OrchestratorContext, post: ExecutorView)
    requires
        collects(pre, octx, post),
    ensures
        forall|k: i32| #[trigger] post.pending_actions.contains_key(k) <==> (pre.pending_actions.contains_key(k)
            || sends_id(octx.spec_sent_actions(), k)),
        forall|k: i32|
            !sends_id(octx.spec_sent_actions(), k) && #[trigger] pre.pending_actions.contains_key(k)
                ==> post.pending_actions[k] == pre.pending_actions[k],
        (forall|j: int| 0 <= j < octx.spec_sent_actions().len() ==> #[trigger] octx.spec_sent_actions()[j].id <= 0)
            ==> post.sequence_number == pre.sequence_number,
        post.sequence_number == pre.sequence_number || sends_id(octx.spec_sent_actions(), post.sequence_number),
{
    assert forall|k: i32| #[trigger] post.pending_actions.contains_key(k) <==> (pre.pending_actions.contains_key(k)
        || sends_id(octx.spec_sent_actions(), k)) by {
        lemma_insert_actions_domain(pre.pending_actions, octx.spec_sent_actions(), k);
    }
    assert forall|k: i32|
        !sends_id(octx.spec_sent_actions(), k) && #[trigger] pre.pending_actions.contains_key(k)
            implies post.pending_actions[k] == pre.pending_actions[k] by {
        lemma_insert_actions_domain(pre.pending_actions, octx.spec_sent_actions(), k);
    }
    lemma_sequence_after(pre.sequence_number, octx.spec_sent_actions());
}

/// The action that completes an orchestration carries the status its result
/// calls for: completed with the output as text, continued as new, or
/// failed; only the output gives a result.
pub proof fn law_completion_follows_result(a: OrchestratorAction, id: i32, result: OrchestratorResult<Vec<u8>>)
    requires
        completes_with(a, id, result),
    ensures
        a.id == id,
        a.action_type matches OrchestratorActionType::CompleteOrchestration { status, result: r } && (match result {
            Ok(OrchestratorResultValue::ContinueAsNew) => status == OrchestrationStatus::ContinuedAsNew && r is None,
            Ok(OrchestratorResultValue::Output(o)) => status == OrchestrationStatus::Completed && (r matches Some(
                text,
            ) && text@ == decode_utf8(o@)),
            Err(_) => status == OrchestrationStatus::Failed && r is None,
        }),
{
}

/// Awaiting a signal takes the oldest buffered input under its name and
/// sends nothing, or, with none buffered, sends exactly this waiter under
/// that name and leaves the buffer alone.
pub proof fn law_await_takes_oldest_or_waits(
    pre: OrchestratorContext,
    post: OrchestratorContext,
    pre_r: Map<Seq<char>, Seq<Option<String>>>,
    post_r: Map<Seq<char>, Seq<Option<String>>>,
    key: Seq<char>,
    waiter: u64,
    res: SignalWait,
)
    requires
        awaits_signal(pre, post, pre_r, post_r, key, waiter, res),
    ensures
        pre_r.contains_key(key) ==> {
            &&& pre_r[key][0] matches Some(v) && res == SignalWait::Received(v)
            &&& pre_r[key].len() > 0 ==> queue_of(post_r, key) == pre_r[key].drop_first()
            &&& post == pre
        },
        !pre_r.contains_key(key) ==> {
            &&& res is Waiting
            &&& post_r == pre_r
            &&& post.spec_sent_waiters().len() == pre.spec_sent_waiters().len() + 1
            &&& post.spec_sent_waiters().last() == (key, waiter)
            &&& post.spec_sent_actions() == pre.spec_sent_actions()
            &&& post.spec_sent_tasks() == pre.spec_sent_tasks()
            &&& post.spec_sequence_number() == pre.spec_sequence_number()
        },
{
    if pre_r.contains_key(key) && pre_r[key].len() == 1 {
        assert(pre_r[key].drop_first() =~= Seq::<Option<String>>::empty());
    }
}

/// Scheduling sends one action under the next sequence number and one task
/// with that id, after those sent before, and nothing else.
pub proof fn law_scheduling_sends_one_action_and_task(
    pre: OrchestratorContext,
    post: OrchestratorContext,
    id: i32,
    a: OrchestratorAction,
)
    requires
        pre.schedules(post, id, a),
    ensures
        id == pre.spec_sequence_number() + 1,
        post.spec_sequence_number() == id,
        post.spec_sent_actions().len() == pre.spec_sent_actions().len() + 1,
        post.spec_sent_actions().last() == a && a.id == id,
        post.spec_sent_actions().drop_last() == pre.spec_sent_actions(),
        post.spec_sent_tasks().len() == pre.spec_sent_tasks().len() + 1,
        post.spec_sent_tasks().last() == id,
        post.spec_sent_tasks().drop_last() == pre.spec_sent_tasks(),
        post.spec_sent_waiters() == pre.spec_sent_waiters(),
{
    assert(post.spec_sent_actions().drop_last() =~= pre.spec_sent_actions());
    assert(post.spec_sent_tasks().drop_last() =~= pre.spec_sent_tasks());
}

} // verus!
