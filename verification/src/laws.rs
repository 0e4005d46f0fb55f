//! What holds across the steps of a replay.
use vstd::prelude::*;

use crate::executor::{
    add_waiters, collects, insert_actions, processes_event, releases_task, sets_complete, EventDirective,
    ExecutorView, TaskRelease,
};
use crate::history::{complete_action, EventType, HistoryEvent, OrchestrationStatus, OrchestratorAction};
use crate::queues::queue_of;
use crate::registry::Registry;
use crate::text::lowercase;
use crate::types::{takes_signal, OrchestratorContext, SignalWait};

verus! {

/// The last of the actions put under one id is the one kept there.
pub proof fn lemma_insert_actions_keeps_last(m: Map<i32, OrchestratorAction>, s: Seq<OrchestratorAction>, i: int)
    requires
        0 <= i < s.len(),
        forall|j: int| i < j < s.len() ==> #[trigger] s[j].id != s[i].id,
    ensures
        insert_actions(m, s).contains_key(s[i].id),
        insert_actions(m, s)[s[i].id] == s[i],
    decreases s.len(),
{
    if i < s.len() - 1 {
        assert(s.last() == s[s.len() - 1]);
        lemma_insert_actions_keeps_last(m, s.drop_last(), i);
    }
}

/// Ids that no collected action carries keep what they held.
pub proof fn lemma_insert_actions_other_ids(m: Map<i32, OrchestratorAction>, s: Seq<OrchestratorAction>, k: i32)
    requires
        forall|j: int| 0 <= j < s.len() ==> #[trigger] s[j].id != k,
    ensures
        insert_actions(m, s).contains_key(k) == m.contains_key(k),
        m.contains_key(k) ==> insert_actions(m, s)[k] == m[k],
    decreases s.len(),
{
    if s.len() > 0 {
        lemma_insert_actions_other_ids(m, s.drop_last(), k);
    }
}

/// An action that the orchestration took stays pending from the moment the
/// executor collects it until a history event under its id confirms it:
/// after collecting, the action is pending under its id (the last action
/// sent under an id wins); an event that confirms a scheduled task, timer or
/// sub-orchestration then removes exactly that id.
pub proof fn law_action_pending_until_confirmed(
    pre: ExecutorView,
    octx: OrchestratorContext,
    mid: ExecutorView,
    i: int,
    received: Map<Seq<char>, Seq<Option<String>>>,
    event: HistoryEvent,
    post: ExecutorView,
    post_received: Map<Seq<char>, Seq<Option<String>>>,
    d: EventDirective,
)
    requires
        collects(pre, octx, mid),
        0 <= i < octx.spec_sent_actions().len(),
        forall|j: int|
            i < j < octx.spec_sent_actions().len() ==> #[trigger] octx.spec_sent_actions()[j].id
                != octx.spec_sent_actions()[i].id,
        processes_event(mid, received, event, post, post_received, d),
        (event.event_type matches Some(t) && (t is TaskScheduled || t is TimerCreated || t is SubOrchestrationInstanceCreated)),
    ensures
        mid.pending_actions.contains_key(octx.spec_sent_actions()[i].id),
        mid.pending_actions[octx.spec_sent_actions()[i].id] == octx.spec_sent_actions()[i],
        post.pending_actions == mid.pending_actions.remove(event.event_id),
        !post.pending_actions.contains_key(event.event_id),
        d is Nothing,
{
    lemma_insert_actions_keeps_last(pre.pending_actions, octx.spec_sent_actions(), i);
}

/// After collecting actions whose last one has a positive id, the
/// executor's sequence number is that id: the next action the executor
/// takes itself follows the orchestration's last one.
pub proof fn law_sequence_follows_last_action(pre: ExecutorView, octx: OrchestratorContext, post: ExecutorView)
    requires
        collects(pre, octx, post),
        octx.spec_sent_actions().len() > 0,
        octx.spec_sent_actions().last().id > 0,
    ensures
        post.sequence_number == octx.spec_sent_actions().last().id,
{
}

/// An action the orchestration schedules takes the sequence number right
/// after its previous one: two in a row get consecutive ids.
pub proof fn law_consecutive_ids(
    c0: OrchestratorContext,
    c1: OrchestratorContext,
    c2: OrchestratorContext,
    id1: i32,
    a1: OrchestratorAction,
    id2: i32,
    a2: OrchestratorAction,
)
    requires
        c0.schedules(c1, id1, a1),
        c1.schedules(c2, id2, a2),
    ensures
        id2 == id1 + 1,
        c2.spec_sent_actions() == c0.spec_sent_actions().push(a1).push(a2),
        a1.id == id1 && a2.id == id2,
{
}

/// A signal raised while nobody waits for it is buffered, and the next
/// await of a name with the same lowercase form takes it, when nothing was
/// buffered under that name before.
pub proof fn law_buffered_signal_reaches_next_await(
    pre: ExecutorView,
    received: Map<Seq<char>, Seq<Option<String>>>,
    event: HistoryEvent,
    post: ExecutorView,
    buffered: Map<Seq<char>, Seq<Option<String>>>,
    d: EventDirective,
    await_name: Seq<char>,
    after_await: Map<Seq<char>, Seq<Option<String>>>,
    res: SignalWait,
)
    requires
        (event.event_type matches Some(EventType::EventRaised { name, input: Some(_) }) && lowercase(name@) == lowercase(await_name)),
        !pre.pending_events.contains_key(lowercase(await_name)),
        !received.contains_key(lowercase(await_name)),
        processes_event(pre, received, event, post, buffered, d),
        takes_signal(buffered, after_await, lowercase(await_name), res),
    ensures
        (event.event_type matches Some(EventType::EventRaised { input: Some(v), .. }) && res == SignalWait::Received(v)),
        after_await == received,
        post == pre,
        d is Nothing,
{
    let key = lowercase(await_name);
    assert(queue_of(received, key) == Seq::<Option<String>>::empty());
    assert(buffered[key].len() == 1);
    assert(buffered.remove(key) =~= received);
}

/// An await that finds nothing buffered leaves its waiter with the
/// executor, and the next signal raised under a name with the same
/// lowercase form resumes that waiter with the signal's input, when no
/// other waiter was queued for that name.
pub proof fn law_waiter_resumed_by_next_signal(
    octx0: OrchestratorContext,
    octx1: OrchestratorContext,
    received: Map<Seq<char>, Seq<Option<String>>>,
    await_name: Seq<char>,
    waiter: u64,
    pre: ExecutorView,
    mid: ExecutorView,
    event: HistoryEvent,
    post: ExecutorView,
    post_received: Map<Seq<char>, Seq<Option<String>>>,
    d: EventDirective,
)
    requires
        octx0.spec_sent_waiters().len() == 0,
        octx1.spec_sent_waiters() == octx0.spec_sent_waiters().push((lowercase(await_name), waiter)),
        !pre.pending_events.contains_key(lowercase(await_name)),
        collects(pre, octx1, mid),
        (event.event_type matches Some(EventType::EventRaised { name, .. }) && lowercase(name@) == lowercase(await_name)),
        processes_event(mid, received, event, post, post_received, d),
    ensures
        (event.event_type matches Some(EventType::EventRaised { input, .. })
            && d == (EventDirective::ResumeWaiter { waiter, input })),
        !post.pending_events.contains_key(lowercase(await_name)),
        post_received == received,
{
    let key = lowercase(await_name);
    let ws = octx1.spec_sent_waiters();
    assert(ws =~= seq![(key, waiter)]);
    assert(ws.drop_last() =~= Seq::<(Seq<char>, u64)>::empty());
    assert(add_waiters(pre.pending_events, ws.drop_last()) == pre.pending_events);
    assert(queue_of(pre.pending_events, key) == Seq::<u64>::empty());
    assert(mid.pending_events[key] == seq![waiter]);
}

/// A task is released once: the first completion of a pending task hands
/// it the result and lets it go, and a second completion under the same id
/// releases nothing.
pub proof fn law_task_released_once(
    pre: ExecutorView,
    received: Map<Seq<char>, Seq<Option<String>>>,
    first: HistoryEvent,
    mid: ExecutorView,
    mid_received: Map<Seq<char>, Seq<Option<String>>>,
    d1: EventDirective,
    second: HistoryEvent,
    post: ExecutorView,
    post_received: Map<Seq<char>, Seq<Option<String>>>,
    d2: EventDirective,
    id: i32,
)
    requires
        pre.pending_tasks.contains(id),
        (first.event_type matches Some(EventType::TaskCompleted { task_scheduled_id, .. }) && task_scheduled_id == id),
        (second.event_type matches Some(EventType::TaskCompleted { task_scheduled_id, .. }) && task_scheduled_id == id),
        processes_event(pre, received, first, mid, mid_received, d1),
        processes_event(mid, mid_received, second, post, post_received, d2),
    ensures
        (first.event_type matches Some(EventType::TaskCompleted { result, .. })
            && d1 == (EventDirective::ReleaseTask { release: Some(TaskRelease { task_id: id, value: result }), poll: true })),
        d2 == (EventDirective::ReleaseTask { release: None, poll: true }),
        !post.pending_tasks.contains(id),
{
}

/// Waiters of one signal name are resumed in the order they started to
/// wait: of two waiters collected in turn, the first signal raised under
/// that name resumes the first, and the next signal the second.
pub proof fn law_waiters_resumed_in_order(
    pre: ExecutorView,
    octx: OrchestratorContext,
    mid: ExecutorView,
    key: Seq<char>,
    w1: u64,
    w2: u64,
    r0: Map<Seq<char>, Seq<Option<String>>>,
    e1: HistoryEvent,
    p1: ExecutorView,
    r1: Map<Seq<char>, Seq<Option<String>>>,
    d1: EventDirective,
    e2: HistoryEvent,
    p2: ExecutorView,
    r2: Map<Seq<char>, Seq<Option<String>>>,
    d2: EventDirective,
)
    requires
        !pre.pending_events.contains_key(key),
        octx.spec_sent_waiters() == seq![(key, w1), (key, w2)],
        collects(pre, octx, mid),
        (e1.event_type matches Some(EventType::EventRaised { name, .. }) && lowercase(name@) == key),
        (e2.event_type matches Some(EventType::EventRaised { name, .. }) && lowercase(name@) == key),
        processes_event(mid, r0, e1, p1, r1, d1),
        processes_event(p1, r1, e2, p2, r2, d2),
    ensures
        (e1.event_type matches Some(EventType::EventRaised { input, .. })
            && d1 == (EventDirective::ResumeWaiter { waiter: w1, input })),
        (e2.event_type matches Some(EventType::EventRaised { input, .. })
            && d2 == (EventDirective::ResumeWaiter { waiter: w2, input })),
        !p2.pending_events.contains_key(key),
        r2 == r0,
{
    let ws = octx.spec_sent_waiters();
    assert(ws.drop_last() =~= seq![(key, w1)]);
    assert(ws.drop_last().drop_last() =~= Seq::<(Seq<char>, u64)>::empty());
    let m0 = add_waiters(pre.pending_events, ws.drop_last().drop_last());
    assert(m0 == pre.pending_events);
    assert(queue_of(m0, key) == Seq::<u64>::empty());
    let m1 = add_waiters(pre.pending_events, ws.drop_last());
    assert(m1[key] == seq![w1]);
    assert(queue_of(m1, key) == seq![w1]);
    assert(mid.pending_events[key] =~= seq![w1, w2]);
    assert(p1.pending_events[key] =~= seq![w2]);
}

/// Signals raised while nobody waits are taken in the order they were
/// raised: of two signals buffered under one name, the first await takes
/// the first and the second await the second.
pub proof fn law_buffered_signals_taken_in_order(
    pre: ExecutorView,
    key: Seq<char>,
    r0: Map<Seq<char>, Seq<Option<String>>>,
    e1: HistoryEvent,
    p1: ExecutorView,
    r1: Map<Seq<char>, Seq<Option<String>>>,
    d1: EventDirective,
    e2: HistoryEvent,
    p2: ExecutorView,
    r2: Map<Seq<char>, Seq<Option<String>>>,
    d2: EventDirective,
    r3: Map<Seq<char>, Seq<Option<String>>>,
    res1: SignalWait,
    r4: Map<Seq<char>, Seq<Option<String>>>,
    res2: SignalWait,
)
    requires
        !pre.pending_events.contains_key(key),
        !r0.contains_key(key),
        (e1.event_type matches Some(EventType::EventRaised { name, input: Some(_) }) && lowercase(name@) == key),
        (e2.event_type matches Some(EventType::EventRaised { name, input: Some(_) }) && lowercase(name@) == key),
        processes_event(pre, r0, e1, p1, r1, d1),
        processes_event(p1, r1, e2, p2, r2, d2),
        takes_signal(r2, r3, key, res1),
        takes_signal(r3, r4, key, res2),
    ensures
        (e1.event_type matches Some(EventType::EventRaised { input: Some(v), .. }) && res1 == SignalWait::Received(v)),
        (e2.event_type matches Some(EventType::EventRaised { input: Some(v), .. }) && res2 == SignalWait::Received(v)),
        r4 == r0,
        p2 == pre,
{
    assert(queue_of(r0, key) == Seq::<Option<String>>::empty());
    assert(r1[key].len() == 1);
    assert(queue_of(r1, key) == r1[key]);
    assert(r2[key].len() == 2);
    assert(r3[key] =~= r2[key].drop_first());
    assert(r4 =~= r0);
}

/// A registered name leads to the slot it was last registered with, and
/// registering an orchestrator leaves the activities as they were.
pub proof fn law_registered_name_found(r0: Registry, r1: Registry, name: Seq<char>, slot: usize)
    requires
        r1.orchestrators() == r0.orchestrators().insert(name, slot),
        r1.activities() == r0.activities(),
    ensures
        r1.orchestrators().get(name) == Some(slot),
        forall|other: Seq<char>| other != name ==> #[trigger] r1.orchestrators().get(other) == r0.orchestrators().get(other),
        forall|any: Seq<char>| #[trigger] r1.activities().get(any) == r0.activities().get(any),
{
}

/// Termination completes the orchestration: the executor takes the next
/// sequence number and leaves a completion with the terminated status
/// pending under it, and an orchestration not yet complete is marked
/// terminated.
pub proof fn law_termination_completes(
    pre: ExecutorView,
    received: Map<Seq<char>, Seq<Option<String>>>,
    event: HistoryEvent,
    post: ExecutorView,
    post_received: Map<Seq<char>, Seq<Option<String>>>,
    d: EventDirective,
)
    requires
        (event.event_type matches Some(t) && t is ExecutionTerminated),
        pre.sequence_number < i32::MAX,
        processes_event(pre, received, event, post, post_received, d),
    ensures
        post.sequence_number == pre.sequence_number + 1,
        post.pending_actions.contains_key(post.sequence_number),
        post.pending_actions[post.sequence_number] == complete_action(
            post.sequence_number,
            OrchestrationStatus::Terminated,
            None,
        ),
        !pre.is_complete ==> post.completion_status == OrchestrationStatus::Terminated,
        pre.is_complete ==> post.completion_status == pre.completion_status,
        post_received == received,
{
}

/// From a fresh context, the actions an orchestration schedules get the ids
/// 1, 2, 3, ... in the order it schedules them: never repeated, never
/// skipped.
pub proof fn law_ids_count_from_one(cs: Seq<OrchestratorContext>, ids: Seq<i32>, acts: Seq<OrchestratorAction>)
    requires
        cs.len() == ids.len() + 1,
        acts.len() == ids.len(),
        cs[0].spec_sequence_number() == 0,
        forall|i: int| 0 <= i < ids.len() ==> #[trigger] cs[i].schedules(cs[i + 1], ids[i], acts[i]),
    ensures
        forall|i: int| 0 <= i < ids.len() ==> #[trigger] ids[i] == i + 1,
        cs.last().spec_sequence_number() == ids.len(),
    decreases ids.len(),
{
    if ids.len() > 0 {
        let n = ids.len() - 1;
        assert(cs.drop_last().last() == cs[n]);
        assert forall|i: int| 0 <= i < ids.drop_last().len() implies #[trigger] cs.drop_last()[i].schedules(
            cs.drop_last()[i + 1],
            ids.drop_last()[i],
            acts.drop_last()[i],
        ) by {
            assert(cs[i].schedules(cs[i + 1], ids[i], acts[i]));
        }
        law_ids_count_from_one(cs.drop_last(), ids.drop_last(), acts.drop_last());
        assert(cs[n].schedules(cs[n + 1], ids[n], acts[n]));
        assert forall|i: int| 0 <= i < ids.len() implies #[trigger] ids[i] == i + 1 by {
            if i < n {
                assert(ids.drop_last()[i] == ids[i]);
            }
        }
    }
}

/// Whether events are replayed or new decides nothing: processing an event,
/// and collecting what the orchestration sent, change the same things
/// whatever the replaying flag says, and leave that flag as it was.  So
/// where a history is split into past and new events changes only the flag
/// under which each event is processed.
pub proof fn law_replaying_flag_decides_nothing(
    pre: ExecutorView,
    received: Map<Seq<char>, Seq<Option<String>>>,
    event: HistoryEvent,
    post: ExecutorView,
    post_received: Map<Seq<char>, Seq<Option<String>>>,
    d: EventDirective,
    octx: OrchestratorContext,
    collected: ExecutorView,
    replaying: bool,
)
    requires
        processes_event(pre, received, event, post, post_received, d),
        collects(post, octx, collected),
    ensures
        post.is_replaying == pre.is_replaying,
        collected.is_replaying == pre.is_replaying,
        processes_event(
            ExecutorView { is_replaying: replaying, ..pre },
            received,
            event,
            ExecutorView { is_replaying: replaying, ..post },
            post_received,
            d,
        ),
        collects(
            ExecutorView { is_replaying: replaying, ..post },
            octx,
            ExecutorView { is_replaying: replaying, ..collected },
        ),
{
    let pre2 = ExecutorView { is_replaying: replaying, ..pre };
    let post2 = ExecutorView { is_replaying: replaying, ..post };
    match event.event_type {
        Some(EventType::TimerFired { timer_id, fire_at }) => {
            let value = choose|value: Option<String>|
                #![trigger releases_task(pre, post, d, timer_id, value, true)]
                releases_task(pre, post, d, timer_id, value, true) && (match value {
                    Some(v) => fire_at is Some && v@ == Seq::<char>::empty(),
                    None => fire_at is None,
                });
            assert(releases_task(pre2, post2, d, timer_id, value, true));
        },
        _ => {},
    }
    if event.event_type matches Some(t) && t is ExecutionTerminated {
        let mid = choose|mid: ExecutorView| #![trigger sets_complete(pre, mid, OrchestrationStatus::Terminated)]
            sets_complete(pre, mid, OrchestrationStatus::Terminated) && post == ExecutorView {
                sequence_number: (pre.sequence_number + 1) as i32,
                pending_actions: mid.pending_actions.insert(
                    (pre.sequence_number + 1) as i32,
                    complete_action((pre.sequence_number + 1) as i32, OrchestrationStatus::Terminated, None),
                ),
                ..mid
            } && post_received == received && d == EventDirective::Nothing;
        let mid2 = ExecutorView { is_replaying: replaying, ..mid };
        assert(sets_complete(pre2, mid2, OrchestrationStatus::Terminated));
        assert(ExecutorView { is_replaying: replaying, ..post } == ExecutorView {
            sequence_number: (pre2.sequence_number + 1) as i32,
            pending_actions: mid2.pending_actions.insert(
                (pre2.sequence_number + 1) as i32,
                complete_action((pre2.sequence_number + 1) as i32, OrchestrationStatus::Terminated, None),
            ),
            ..mid2
        });
    }
}

} // verus!
